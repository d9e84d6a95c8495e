use vstd::prelude::*;

verus! {

/// A logical input, bound to physical keys by a `ControlMap`.
#[derive(Clone, Copy, Debug, PartialEq, Eq, Structural)]
pub enum GameAction {
    Up,
    Down,
    Menu,
}

/// A physical key, by its code.
#[derive(Clone, Copy, Debug, PartialEq, Eq, Structural)]
pub struct Key {
    pub code: u32,
}

/// The keys bound to each logical action. An action may have no key: it is
/// then never held.
pub struct ControlMap {
    pub up: Vec<Key>,
    pub down: Vec<Key>,
    pub menu: Vec<Key>,
}

/// Whether a key of `keys` is among `held`.
pub open spec fn any_held(keys: Seq<Key>, held: Seq<Key>) -> bool {
    exists|k: Key| keys.contains(k) && held.contains(k)
}

pub fn contains_key(v: &Vec<Key>, k: Key) -> (r: bool)
    ensures
        r == v@.contains(k),
{
    let mut i: usize = 0;
    while i < v.len()
        invariant
            i <= v@.len(),
            forall|j: int| 0 <= j < i ==> v@[j] != k,
        decreases v@.len() - i,
    {
        if v[i] == k {
            return true;
        }
        i = i + 1;
    }
    false
}

impl ControlMap {
    pub open spec fn keys_of(self, a: GameAction) -> Seq<Key> {
        match a {
            GameAction::Up => self.up@,
            GameAction::Down => self.down@,
            GameAction::Menu => self.menu@,
        }
    }

    /// No key is listed twice for one action.
    pub open spec fn wf(self) -> bool {
        &&& self.up@.no_duplicates()
        &&& self.down@.no_duplicates()
        &&& self.menu@.no_duplicates()
    }

    /// `self` and `other` agree on every action but `a`.
    pub open spec fn same_except(self, other: ControlMap, a: GameAction) -> bool {
        forall|b: GameAction| b != a ==> #[trigger] other.keys_of(b) == self.keys_of(b)
    }

    /// Whether action `a` is held while the keys `held` are down.
    pub open spec fn spec_pressed(self, a: GameAction, held: Seq<Key>) -> bool {
        any_held(self.keys_of(a), held)
    }

    /// A map with no binding.
    pub fn new() -> (r: ControlMap)
        ensures
            r.wf(),
            forall|a: GameAction| #[trigger] r.keys_of(a) == Seq::<Key>::empty(),
    {
        let r = ControlMap { up: Vec::new(), down: Vec::new(), menu: Vec::new() };
        assert forall|a: GameAction| #[trigger] r.keys_of(a) == Seq::<Key>::empty() by {
            match a {
                GameAction::Up => assert(r.up@ =~= Seq::<Key>::empty()),
                GameAction::Down => assert(r.down@ =~= Seq::<Key>::empty()),
                GameAction::Menu => assert(r.menu@ =~= Seq::<Key>::empty()),
            }
        }
        r
    }

    /// The keys bound to `a`, or `None` where it has none.
    pub fn get(&self, a: GameAction) -> (r: Option<Vec<Key>>)
        ensures
            self.keys_of(a).len() == 0 <==> r is None,
            r matches Some(v) ==> v@ == self.keys_of(a),
    {
        let v = match a {
            GameAction::Up => &self.up,
            GameAction::Down => &self.down,
            GameAction::Menu => &self.menu,
        };
        if v.len() == 0 {
            None
        } else {
            Some(v.clone())
        }
    }

    /// Binds `k` to `a` as well, unless it already is.
    pub fn insert(&mut self, a: GameAction, k: Key)
        requires
            old(self).wf(),
        ensures
            final(self).wf(),
            final(self).keys_of(a) == (if old(self).keys_of(a).contains(k) {
                old(self).keys_of(a)
            } else {
                old(self).keys_of(a).push(k)
            }),
            old(self).same_except(*final(self), a),
    {
        let v = match a {
            GameAction::Up => &mut self.up,
            GameAction::Down => &mut self.down,
            GameAction::Menu => &mut self.menu,
        };
        if !contains_key(v, k) {
            v.push(k);
        }
    }

    /// Removes every key of `a`.
    pub fn clear_action(&mut self, a: GameAction)
        requires
            old(self).wf(),
        ensures
            final(self).wf(),
            final(self).keys_of(a) == Seq::<Key>::empty(),
            old(self).same_except(*final(self), a),
    {
        match a {
            GameAction::Up => self.up = Vec::new(),
            GameAction::Down => self.down = Vec::new(),
            GameAction::Menu => self.menu = Vec::new(),
        }
        assert(self.keys_of(a) =~= Seq::<Key>::empty());
    }

    /// Whether `a` is held while the keys `held` are down.
    pub fn pressed(&self, a: GameAction, held: &Vec<Key>) -> (r: bool)
        ensures
            r == self.spec_pressed(a, held@),
    {
        let v = match a {
            GameAction::Up => &self.up,
            GameAction::Down => &self.down,
            GameAction::Menu => &self.menu,
        };
        let mut i: usize = 0;
        while i < v.len()
            invariant
                v@ == self.keys_of(a),
                i <= v@.len(),
                forall|j: int| 0 <= j < i ==> !held@.contains(#[trigger] v@[j]),
            decreases v@.len() - i,
        {
            if contains_key(held, v[i]) {
                assert(v@.contains(v@[i as int]));
                return true;
            }
            i = i + 1;
        }
        assert forall|k: Key| !(v@.contains(k) && held@.contains(k)) by {
            if v@.contains(k) {
                let j = choose|j: int| 0 <= j < v@.len() && v@[j] == k;
                assert(!held@.contains(v@[j]));
            }
        }
        false
    }

    /// Whether `a` went down between the last tick (`before`) and this one (`now`).
    pub fn just_pressed(&self, a: GameAction, now: &Vec<Key>, before: &Vec<Key>) -> (r: bool)
        ensures
            r == (self.spec_pressed(a, now@) && !self.spec_pressed(a, before@)),
    {
        self.pressed(a, now) && !self.pressed(a, before)
    }
}

/// A rebind in progress on the controls screen: the action that waits for a
/// key, if any.
#[derive(Clone, Copy, Debug, PartialEq, Eq, Structural)]
pub struct ControlRemapping {
    pub awaiting: Option<GameAction>,
}

/// The bindings after `k` was pressed for a rebind of `a`: `a` has `k` alone.
pub open spec fn rebound(old_map: ControlMap, new_map: ControlMap, a: GameAction, k: Key) -> bool {
    &&& new_map.keys_of(a) == seq![k]
    &&& old_map.same_except(new_map, a)
}

impl ControlRemapping {
    /// No rebind in progress.
    pub fn new() -> (r: ControlRemapping)
        ensures
            r.awaiting is None,
    {
        ControlRemapping { awaiting: None }
    }

    /// A rebind of `a` that waits for the next key.
    pub fn start_remapping(a: GameAction) -> (r: ControlRemapping)
        ensures
            r.awaiting == Some(a),
    {
        ControlRemapping { awaiting: Some(a) }
    }
}

impl Default for ControlRemapping {
    fn default() -> (r: ControlRemapping)
        ensures
            r.awaiting is None,
    {
        ControlRemapping::new()
    }
}

/// Commits a rebind in progress to the first of the keys `pressed` this tick:
/// the action loses its keys and gets that one; the rebind ends.
pub fn listen_for_keys(remap: &mut ControlRemapping, map: &mut ControlMap, pressed: &Vec<Key>)
    requires
        old(map).wf(),
    ensures
        final(map).wf(),
        match old(remap).awaiting {
            Some(a) if pressed@.len() > 0 => {
                &&& rebound(*old(map), *final(map), a, pressed@[0])
                &&& final(remap).awaiting is None
            },
            _ => *final(remap) == *old(remap) && *final(map) == *old(map),
        },
{
    if let Some(a) = remap.awaiting {
        if pressed.len() > 0 {
            map.clear_action(a);
            map.insert(a, pressed[0]);
            remap.awaiting = None;
            assert(map.keys_of(a) =~= seq![pressed@[0]]);
        }
    }
}

/// After a rebind of `a` that the key `k` committed, `a` is bound to exactly
/// `k`, so it is held exactly when `k` is down; every other action keeps its
/// keys, `k` among them where it had it.
pub proof fn lemma_remap_flow(
    old_map: ControlMap,
    new_map: ControlMap,
    a: GameAction,
    k: Key,
    held: Seq<Key>,
)
    requires
        rebound(old_map, new_map, a, k),
    ensures
        new_map.keys_of(a).to_set() == set![k],
        new_map.spec_pressed(a, held) <==> held.contains(k),
        forall|b: GameAction| b != a ==> #[trigger] new_map.keys_of(b) == old_map.keys_of(b),
        forall|b: GameAction|
            b != a && old_map.keys_of(b).contains(k) ==> #[trigger] new_map.keys_of(b).contains(k),
{
    let s = new_map.keys_of(a);
    assert(s.to_set() =~= set![k]) by {
        assert forall|x: Key| s.to_set().contains(x) <==> x == k by {
            if x == k {
                assert(s[0] == k);
            }
        }
    }
    if held.contains(k) {
        assert(s.contains(k) && held.contains(k)) by {
            assert(s[0] == k);
        }
    }
}

} // verus!
