//! Which room belongs to which instance of the Discord activity.

use vstd::prelude::*;

verus! {

/// The name of the room that is made for an instance of the activity.
pub open spec fn discord_room_name() -> Seq<char> {
    "Discord Activity"@
}

/// Whether no instance has two entries in `s`.
pub open spec fn distinct_instances(s: Seq<(String, String)>) -> bool {
    forall|i: int, j: int| 0 <= i < s.len() && 0 <= j < s.len() && i != j ==> s[i].0@ != s[j].0@
}

/// The place of the entry of `instance` in `s` from `from` on; the length
/// of `s` if there is none.
pub open spec fn instance_place(s: Seq<(String, String)>, instance: Seq<char>, from: int) -> int
    decreases s.len() - from,
{
    if from < 0 || from >= s.len() {
        s.len() as int
    } else if s[from].0@ == instance {
        from
    } else {
        instance_place(s, instance, from + 1)
    }
}

/// The room of `instance`.
pub open spec fn room_of_instance(s: Seq<(String, String)>, instance: Seq<char>) -> Option<String> {
    let place = instance_place(s, instance, 0);
    if place < s.len() {
        Some(s[place].1)
    } else {
        None
    }
}

/// `s` without the entry of `instance`.
pub open spec fn without_instance(s: Seq<(String, String)>, instance: Seq<char>) -> Seq<
    (String, String),
> {
    let place = instance_place(s, instance, 0);
    if place < s.len() {
        s.remove(place)
    } else {
        s
    }
}

/// `s` without the entries of the room `room`; the others keep their order.
pub open spec fn without_room(s: Seq<(String, String)>, room: Seq<char>) -> Seq<(String, String)>
    decreases s.len(),
{
    if s.len() == 0 {
        s
    } else {
        let before = without_room(s.drop_last(), room);
        if s.last().1@ == room {
            before
        } else {
            before.push(s.last())
        }
    }
}

/// The place of an instance lies in the entries or at their end, holds the
/// instance, and is the first that does.
pub proof fn lemma_instance_place(s: Seq<(String, String)>, instance: Seq<char>, from: int)
    requires
        0 <= from <= s.len(),
    ensures
        from <= instance_place(s, instance, from) <= s.len(),
        instance_place(s, instance, from) < s.len() ==> s[instance_place(s, instance, from)].0@
            == instance,
        forall|i: int| from <= i < instance_place(s, instance, from) ==> s[i].0@ != instance,
    decreases s.len() - from,
{
    if from < s.len() && s[from].0@ != instance {
        lemma_instance_place(s, instance, from + 1);
    }
}

/// What is left after the entries of a room were taken out were entries
/// before, and no instance has two of them.
proof fn lemma_without_room(s: Seq<(String, String)>, room: Seq<char>)
    requires
        distinct_instances(s),
    ensures
        distinct_instances(without_room(s, room)),
        forall|k: int|
            0 <= k < without_room(s, room).len() ==> exists|j: int|
                0 <= j < s.len() && s[j] == (#[trigger] without_room(s, room)[k]),
    decreases s.len(),
{
    if s.len() > 0 {
        let init = s.drop_last();
        lemma_without_room(init, room);
        let before = without_room(init, room);
        let all = without_room(s, room);
        assert forall|k: int| 0 <= k < all.len() implies exists|j: int|
            0 <= j < s.len() && s[j] == (#[trigger] all[k]) by {
            if k < before.len() {
                let j = choose|j: int| 0 <= j < init.len() && init[j] == before[k];
                assert(s[j] == all[k]);
            } else {
                assert(s[s.len() - 1] == all[k]);
            }
        }
        assert forall|a: int, b: int|
            0 <= a < all.len() && 0 <= b < all.len() && a != b implies all[a].0@ != all[b].0@ by {
            if a < before.len() && b < before.len() {
            } else if a < before.len() {
                let j = choose|j: int| 0 <= j < init.len() && init[j] == before[a];
                assert(s[j].0@ != s[s.len() - 1].0@);
            } else {
                let j = choose|j: int| 0 <= j < init.len() && init[j] == before[b];
                assert(s[j].0@ != s[s.len() - 1].0@);
            }
        }
    }
}

/// Notes for each instance of the activity the room that was made for it.
#[derive(Debug)]
pub struct DiscordInstanceManager {
    instances: Vec<(String, String)>,
}

impl View for DiscordInstanceManager {
    type V = Seq<(String, String)>;

    /// The instances, each with its room, in the order in which they were
    /// noted.
    closed spec fn view(&self) -> Seq<(String, String)> {
        self.instances@
    }
}

impl DiscordInstanceManager {
    /// No instance is noted twice. This holds of what `new` hands out, and
    /// the functions keep it.
    pub open spec fn wf(&self) -> bool {
        distinct_instances(self@)
    }

    pub fn new() -> (r: Self)
        ensures
            r.wf(),
            r@ == Seq::<(String, String)>::empty(),
    {
        DiscordInstanceManager { instances: Vec::new() }
    }

    fn position(&self, instance_id: &String) -> (r: usize)
        ensures
            r == instance_place(self@, instance_id@, 0),
            r <= self@.len(),
    {
        proof {
            lemma_instance_place(self@, instance_id@, 0);
        }
        let mut i: usize = 0;
        while i < self.instances.len() && self.instances[i].0 != *instance_id
            invariant
                i <= self.instances@.len(),
                instance_place(self.instances@, instance_id@, 0) == instance_place(
                    self.instances@,
                    instance_id@,
                    i as int,
                ),
            decreases self.instances.len() - i,
        {
            i += 1;
        }
        i
    }

    /// Notes the room of an instance, in place of what was noted for the
    /// instance before.
    pub fn register_instance(&mut self, instance_id: String, room_id: String)
        requires
            old(self).wf(),
        ensures
            final(self).wf(),
            final(self)@ == without_instance(old(self)@, instance_id@).push((instance_id, room_id)),
    {
        self.remove_instance(instance_id.as_str());
        proof {
            lemma_instance_place(self@, instance_id@, 0);
        }
        self.instances.push((instance_id, room_id));
        proof {
            let w = without_instance(old(self)@, instance_id@);
            let n = self@;
            assert forall|a: int, b: int|
                0 <= a < n.len() && 0 <= b < n.len() && a != b implies n[a].0@ != n[b].0@ by {
                if a < w.len() && b < w.len() {
                    assert(n[a] == w[a] && n[b] == w[b]);
                } else if a < w.len() {
                    assert(n[a] == w[a]);
                } else {
                    assert(n[b] == w[b]);
                }
            }
        }
    }

    /// The room of an instance.
    pub fn get_room_id(&self, instance_id: &str) -> (r: Option<String>)
        ensures
            r == room_of_instance(self@, instance_id@),
    {
        let wanted = instance_id.to_owned();
        let place = self.position(&wanted);
        if place < self.instances.len() {
            Some(self.instances[place].1.clone())
        } else {
            None
        }
    }

    /// Strikes the note of an instance.
    pub fn remove_instance(&mut self, instance_id: &str)
        requires
            old(self).wf(),
        ensures
            final(self).wf(),
            final(self)@ == without_instance(old(self)@, instance_id@),
            instance_place(final(self)@, instance_id@, 0) == final(self)@.len(),
    {
        let wanted = instance_id.to_owned();
        let place = self.position(&wanted);
        proof {
            lemma_instance_place(self@, instance_id@, 0);
        }
        if place < self.instances.len() {
            let _ = self.instances.remove(place);
            proof {
                let o = old(self)@;
                let n = self@;
                assert forall|a: int| 0 <= a < n.len() implies (#[trigger] n[a]) == o[if a < place {
                    a
                } else {
                    a + 1
                }] by {}
                lemma_instance_place(n, instance_id@, 0);
                let k = instance_place(n, instance_id@, 0);
                if k < n.len() {
                    assert(o[if k < place {
                        k
                    } else {
                        k + 1
                    }].0@ == instance_id@);
                }
            }
        }
    }

    /// Strikes the notes of all instances of a room.
    pub fn remove_room(&mut self, room_id: &str)
        requires
            old(self).wf(),
        ensures
            final(self).wf(),
            final(self)@ == without_room(old(self)@, room_id@),
    {
        let wanted = room_id.to_owned();
        let mut noted: Vec<(String, String)> = Vec::new();
        std::mem::swap(&mut self.instances, &mut noted);
        proof {
            lemma_without_room(noted@, room_id@);
        }
        let mut i: usize = 0;
        while i < noted.len()
            invariant
                i <= noted@.len(),
                noted@ == old(self)@,
                wanted@ == room_id@,
                self.instances@ == without_room(noted@.subrange(0, i as int), room_id@),
            decreases noted.len() - i,
        {
            proof {
                let next = noted@.subrange(0, i + 1);
                assert(next.drop_last() == noted@.subrange(0, i as int));
                assert(next.last() == noted@[i as int]);
            }
            if noted[i].1 != wanted {
                self.instances.push((noted[i].0.clone(), noted[i].1.clone()));
            }
            i += 1;
        }
        assert(noted@.subrange(0, i as int) == noted@);
    }
}

impl Default for DiscordInstanceManager {
    fn default() -> (r: Self)
        ensures
            r.wf(),
            r@ == Seq::<(String, String)>::empty(),
    {
        DiscordInstanceManager::new()
    }
}

/// What is to be done when a room is asked for an instance of the activity.
#[derive(Clone, Debug, PartialEq, Eq)]
pub enum DiscordRoom {
    /// The instance has this room already.
    Existing(String),
    /// A room of this name is to be made and noted for the instance.
    Create { app_name: String },
}

/// Decides whether an instance of the activity gets a new room: only if it
/// has none yet.
pub fn discord_room(manager: &DiscordInstanceManager, instance_id: &str) -> (r: DiscordRoom)
    ensures
        match room_of_instance(manager@, instance_id@) {
            Some(room_id) => r == DiscordRoom::Existing(room_id),
            None => r matches DiscordRoom::Create { app_name } && app_name@ == discord_room_name(),
        },
{
    match manager.get_room_id(instance_id) {
        Some(room_id) => DiscordRoom::Existing(room_id),
        None => DiscordRoom::Create { app_name: "Discord Activity".to_string() },
    }
}

} // verus!
