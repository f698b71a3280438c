//! What the physics engine reports after each step, and what it changes:
//! proximity events choose the atmosphere that pulls a body, contact events
//! ground players and end bullets.

use vstd::prelude::*;
use std::collections::HashMap;
use crate::world::{
    Attractable, Components, Entity, Kind, Player, Slots, World, alive, components, is_bullet,
    is_planet, is_player, removed, replaced, source_at,
};

verus! {

broadcast use vstd::std_specs::hash::group_hash_axioms;

/// How near two colliders are.
#[derive(Clone, Copy, Debug, PartialEq, Eq)]
pub enum Proximity {
    Intersecting,
    WithinMargin,
    Disjoint,
}

/// The nearness of two colliders has changed.
#[derive(Clone, Copy, Debug, PartialEq, Eq)]
pub struct ProximityEvent {
    pub collider1: u64,
    pub collider2: u64,
    pub new_status: Proximity,
}

/// Two bodies have begun or ended to touch.
#[derive(Clone, Copy, Debug, PartialEq, Eq)]
pub enum ContactEvent {
    Started(u64, u64),
    Stopped(u64, u64),
}

impl ContactEvent {
    /// The handle of the first body.
    pub open spec fn first(self) -> u64 {
        match self {
            ContactEvent::Started(a, _) => a,
            ContactEvent::Stopped(a, _) => a,
        }
    }

    /// The handle of the second body.
    pub open spec fn second(self) -> u64 {
        match self {
            ContactEvent::Started(_, b) => b,
            ContactEvent::Stopped(_, b) => b,
        }
    }

    /// Whether the touch has begun.
    pub open spec fn is_started(self) -> bool {
        self is Started
    }
}

/// The entity that owns the body or collider `handle`, if the table knows it.
pub open spec fn lookup(table: Map<u64, Entity>, handle: u64) -> Option<Entity> {
    if table.contains_key(handle) {
        Some(table[handle])
    } else {
        None
    }
}

/// The atmosphere that pulls a body after the sensor of `atmosphere` has
/// reported `status` for it: entering makes `atmosphere` the one that pulls,
/// and leaving ends the pull only if `atmosphere` is the one that pulls now.
pub open spec fn attraction_after(
    current: Attractable,
    atmosphere: Entity,
    status: Proximity,
) -> Attractable {
    match status {
        Proximity::Intersecting => Attractable(Some(atmosphere)),
        Proximity::WithinMargin => current,
        Proximity::Disjoint => if current.0 == Some(atmosphere) {
            Attractable(None)
        } else {
            current
        },
    }
}

/// Whether `e` is an atmosphere with a body.
pub open spec fn is_atmosphere(w: Slots, e: Entity) -> bool {
    source_at(w, e) is Some
}

/// The atmosphere that an event between `a` and `b` is about: the first of
/// the two that is one.
pub open spec fn sensed_atmosphere(w: Slots, a: Option<Entity>, b: Option<Entity>) -> Option<
    Entity,
> {
    if a matches Some(x) && is_atmosphere(w, x) {
        a
    } else if b matches Some(y) && is_atmosphere(w, y) {
        b
    } else {
        None
    }
}

/// `w` after `atmosphere` has reported `status` for `e`: nothing changes
/// unless `e` is another entity than `atmosphere`, is in the world and can be
/// pulled.
pub open spec fn attracted(
    w: Slots,
    e: Option<Entity>,
    atmosphere: Entity,
    status: Proximity,
) -> Slots {
    match e {
        Some(x) => if x != atmosphere {
            match components(w, x) {
                Some(Components { kind, attractable: Some(current), body }) => replaced(
                    w,
                    x,
                    Components {
                        kind,
                        attractable: Some(attraction_after(current, atmosphere, status)),
                        body,
                    },
                ),
                _ => w,
            }
        } else {
            w
        },
        None => w,
    }
}

/// `w` after one proximity event.
pub open spec fn after_proximity(w: Slots, table: Map<u64, Entity>, event: ProximityEvent) -> Slots {
    let a = lookup(table, event.collider1);
    let b = lookup(table, event.collider2);
    match sensed_atmosphere(w, a, b) {
        Some(atmosphere) => attracted(
            attracted(w, a, atmosphere, event.new_status),
            b,
            atmosphere,
            event.new_status,
        ),
        None => w,
    }
}

/// `w` after the proximity events `events`, in their order.
pub open spec fn after_proximities(
    w: Slots,
    table: Map<u64, Entity>,
    events: Seq<ProximityEvent>,
) -> Slots
    decreases events.len(),
{
    if events.len() == 0 {
        w
    } else {
        after_proximity(after_proximities(w, table, events.drop_last()), table, events.last())
    }
}

/// Whether `e` names a planet.
pub open spec fn names_planet(w: Slots, e: Option<Entity>) -> bool {
    e matches Some(x) && is_planet(w, x)
}

/// Whether `e` names a bullet.
pub open spec fn names_bullet(w: Slots, e: Option<Entity>) -> bool {
    e matches Some(x) && is_bullet(w, x)
}

/// `w` with the grounded flag of `e` set to `is_grounded`, if `e` is a player.
pub open spec fn grounded(w: Slots, e: Option<Entity>, is_grounded: bool) -> Slots {
    match e {
        Some(x) => match components(w, x) {
            Some(Components { kind: Kind::Player(_), attractable, body }) => replaced(
                w,
                x,
                Components { kind: Kind::Player(Player { is_grounded }), attractable, body },
            ),
            _ => w,
        },
        None => w,
    }
}

/// `w` without `e`, if `e` is a bullet.
pub open spec fn without_bullet(w: Slots, e: Option<Entity>) -> Slots {
    match e {
        Some(x) => if is_bullet(w, x) {
            removed(w, x)
        } else {
            w
        },
        None => w,
    }
}

/// `w` after a contact between `a` and `b` that has begun (`is_started`) or
/// ended: where one of the two is a planet, each of them that is a player is
/// grounded or not as the contact began or ended; each of them that is a
/// bullet leaves the world.
pub open spec fn after_touch(w: Slots, a: Option<Entity>, b: Option<Entity>, is_started: bool) -> Slots {
    let marked = if names_planet(w, a) || names_planet(w, b) {
        grounded(grounded(w, a, is_started), b, is_started)
    } else {
        w
    };
    without_bullet(without_bullet(marked, a), b)
}

/// The bullets that a contact between `a` and `b` ends, each once.
pub open spec fn ended_by_touch(w: Slots, a: Option<Entity>, b: Option<Entity>) -> Seq<Entity> {
    let first = if names_bullet(w, a) {
        seq![a->0]
    } else {
        Seq::<Entity>::empty()
    };
    if names_bullet(w, b) && !(names_bullet(w, a) && a == b) {
        first.push(b->0)
    } else {
        first
    }
}

/// `w` after one contact event.
pub open spec fn after_contact(w: Slots, table: Map<u64, Entity>, event: ContactEvent) -> Slots {
    after_touch(
        w,
        lookup(table, event.first()),
        lookup(table, event.second()),
        event.is_started(),
    )
}

/// The bullets that one contact event ends.
pub open spec fn ended_by_contact(w: Slots, table: Map<u64, Entity>, event: ContactEvent) -> Seq<
    Entity,
> {
    ended_by_touch(w, lookup(table, event.first()), lookup(table, event.second()))
}

/// `w` after the contact events `events`, in their order.
pub open spec fn after_contacts(w: Slots, table: Map<u64, Entity>, events: Seq<ContactEvent>) -> Slots
    decreases events.len(),
{
    if events.len() == 0 {
        w
    } else {
        after_contact(after_contacts(w, table, events.drop_last()), table, events.last())
    }
}

/// The bullets that the contact events `events` end, in the order in which
/// they end.
pub open spec fn ended_by_contacts(
    w: Slots,
    table: Map<u64, Entity>,
    events: Seq<ContactEvent>,
) -> Seq<Entity>
    decreases events.len(),
{
    if events.len() == 0 {
        Seq::<Entity>::empty()
    } else {
        ended_by_contacts(w, table, events.drop_last()) + ended_by_contact(
            after_contacts(w, table, events.drop_last()),
            table,
            events.last(),
        )
    }
}

/// The grounded flag of `e`, if `e` is a player.
pub open spec fn grounded_flag(w: Slots, e: Entity) -> Option<bool> {
    match components(w, e) {
        Some(Components { kind: Kind::Player(p), .. }) => Some(p.is_grounded),
        _ => None,
    }
}

/// The atmosphere that pulls `e`, if `e` can be pulled.
pub open spec fn attraction(w: Slots, e: Entity) -> Option<Attractable> {
    match components(w, e) {
        Some(c) => c.attractable,
        None => None,
    }
}

/// Whether `e` names no entity of the world.
pub open spec fn names_nothing(w: Slots, e: Option<Entity>) -> bool {
    e matches Some(x) ==> !alive(w, x)
}

/// A body enters one atmosphere, then another, then leaves the first: the
/// second pulls it. Leaving an atmosphere that does not pull changes nothing.
pub proof fn law_last_entered_atmosphere_pulls(start: Attractable, a: Entity, b: Entity)
    requires
        a != b,
    ensures
        ({
            let one = attraction_after(start, a, Proximity::Intersecting);
            let two = attraction_after(one, b, Proximity::Intersecting);
            &&& two == Attractable(Some(b))
            &&& attraction_after(two, a, Proximity::Disjoint) == two
        }),
{
}

/// The same, in a world: the body `body` can be pulled and is no atmosphere,
/// `first` and `second` are two atmospheres. After the events "`body` is
/// inside `first`", "`body` is inside `second`" and "`body` is outside
/// `first`", the atmosphere that pulls `body` is `second`.
pub proof fn law_last_entered_atmosphere_pulls_in_world(
    w: Slots,
    table: Map<u64, Entity>,
    body: u64,
    first: u64,
    second: u64,
)
    requires
        lookup(table, body) is Some,
        lookup(table, first) is Some,
        lookup(table, second) is Some,
        lookup(table, first) != lookup(table, second),
        is_atmosphere(w, lookup(table, first)->0),
        is_atmosphere(w, lookup(table, second)->0),
        !is_atmosphere(w, lookup(table, body)->0),
        attraction(w, lookup(table, body)->0) is Some,
    ensures
        ({
            let enter_first = ProximityEvent {
                collider1: body,
                collider2: first,
                new_status: Proximity::Intersecting,
            };
            let enter_second = ProximityEvent {
                collider1: body,
                collider2: second,
                new_status: Proximity::Intersecting,
            };
            let leave_first = ProximityEvent {
                collider1: body,
                collider2: first,
                new_status: Proximity::Disjoint,
            };
            let w1 = after_proximity(w, table, enter_first);
            let w2 = after_proximity(w1, table, enter_second);
            let w3 = after_proximity(w2, table, leave_first);
            &&& attraction(w1, lookup(table, body)->0) == Some(Attractable(lookup(table, first)))
            &&& attraction(w2, lookup(table, body)->0) == Some(Attractable(lookup(table, second)))
            &&& attraction(w3, lookup(table, body)->0) == Some(Attractable(lookup(table, second)))
        }),
{
}

/// A proximity event changes nothing but the atmosphere that pulls a body:
/// every entity stays what it is and where it is, and none comes or goes.
pub proof fn law_proximity_changes_attraction_only(
    w: Slots,
    table: Map<u64, Entity>,
    event: ProximityEvent,
    e: Entity,
)
    ensures
        ({
            let after = after_proximity(w, table, event);
            &&& after.len() == w.len()
            &&& alive(after, e) == alive(w, e)
            &&& alive(w, e) ==> components(after, e)->0.kind == components(w, e)->0.kind
            &&& alive(w, e) ==> components(after, e)->0.body == components(w, e)->0.body
            &&& attraction(after, e) is Some == attraction(w, e) is Some
            &&& lookup(table, event.collider1) != Some(e) && lookup(table, event.collider2) != Some(
                e,
            ) ==> components(after, e) == components(w, e)
        }),
{
}

/// A bullet that a contact event names is gone after the event, and the
/// event reports it once.
pub proof fn law_touched_bullet_ends_once(
    w: Slots,
    table: Map<u64, Entity>,
    event: ContactEvent,
    bullet: Entity,
)
    requires
        is_bullet(w, bullet),
        lookup(table, event.first()) == Some(bullet) || lookup(table, event.second()) == Some(
            bullet,
        ),
    ensures
        !alive(after_contact(w, table, event), bullet),
        ended_by_contact(w, table, event).contains(bullet),
        ended_by_contact(w, table, event).no_duplicates(),
{
    let ended = ended_by_contact(w, table, event);
    if lookup(table, event.first()) == Some(bullet) {
        assert(ended[0] == bullet);
    } else {
        assert(ended[ended.len() - 1] == bullet);
    }
}

/// A contact event ends bullets that were in the world, and no others.
pub proof fn law_only_touched_bullets_end(
    w: Slots,
    table: Map<u64, Entity>,
    event: ContactEvent,
    e: Entity,
)
    ensures
        ended_by_contact(w, table, event).no_duplicates(),
        ended_by_contact(w, table, event).contains(e) <==> is_bullet(w, e) && (lookup(
            table,
            event.first(),
        ) == Some(e) || lookup(table, event.second()) == Some(e)),
        alive(after_contact(w, table, event), e) <==> alive(w, e) && !ended_by_contact(
            w,
            table,
            event,
        ).contains(e),
{
    let ended = ended_by_contact(w, table, event);
    let a = lookup(table, event.first());
    let b = lookup(table, event.second());
    if is_bullet(w, e) && a == Some(e) {
        assert(ended[0] == e);
    } else if is_bullet(w, e) && b == Some(e) {
        assert(ended[ended.len() - 1] == e);
    }
}

/// A contact event that is taken a second time changes nothing and ends no
/// bullet: what it ended the first time is gone.
pub proof fn law_contact_event_twice_is_once(w: Slots, table: Map<u64, Entity>, event: ContactEvent)
    ensures
        ({
            let once = after_contact(w, table, event);
            &&& after_contact(once, table, event) == once
            &&& ended_by_contact(once, table, event) == Seq::<Entity>::empty()
        }),
{
    let once = after_contact(w, table, event);
    assert(after_contact(once, table, event) =~= once);
}

/// A contact event that names an entity that is gone, or a handle that the
/// table does not know, and whose other body is no bullet, changes nothing
/// and ends nothing.
pub proof fn law_contact_with_ended_bullet_is_idle(
    w: Slots,
    table: Map<u64, Entity>,
    event: ContactEvent,
)
    requires
        ({
            let a = lookup(table, event.first());
            let b = lookup(table, event.second());
            ||| names_nothing(w, a) && !names_bullet(w, b)
            ||| names_nothing(w, b) && !names_bullet(w, a)
        }),
    ensures
        after_contact(w, table, event) == w,
        ended_by_contact(w, table, event) == Seq::<Entity>::empty(),
{
    assert(after_contact(w, table, event) =~= w);
}

/// Over all the contact events of a step every bullet ends at most once: no
/// bullet is reported twice, every bullet that is reported was in the world
/// before the events and is gone after them, and whatever else was in the
/// world is still there.
pub proof fn law_every_bullet_ends_once(
    w: Slots,
    table: Map<u64, Entity>,
    events: Seq<ContactEvent>,
)
    ensures
        ended_by_contacts(w, table, events).no_duplicates(),
        after_contacts(w, table, events).len() == w.len(),
        forall|e: Entity| #[trigger]
            ended_by_contacts(w, table, events).contains(e) ==> is_bullet(w, e) && !alive(
                after_contacts(w, table, events),
                e,
            ),
        forall|e: Entity| #[trigger]
            alive(after_contacts(w, table, events), e) <==> alive(w, e) && !ended_by_contacts(
                w,
                table,
                events,
            ).contains(e),
        forall|e: Entity| #[trigger]
            is_bullet(after_contacts(w, table, events), e) <==> is_bullet(w, e)
                && !ended_by_contacts(w, table, events).contains(e),
    decreases events.len(),
{
    if events.len() > 0 {
        let earlier = events.drop_last();
        let event = events.last();
        law_every_bullet_ends_once(w, table, earlier);
        let before = after_contacts(w, table, earlier);
        let ended_before = ended_by_contacts(w, table, earlier);
        let ended_now = ended_by_contact(before, table, event);
        let after = after_contact(before, table, event);
        let all = ended_before + ended_now;
        assert(all == ended_by_contacts(w, table, events));
        assert(after == after_contacts(w, table, events));
        assert forall|e: Entity|
            ended_now.contains(e) <==> is_bullet(before, e) && (lookup(table, event.first())
                == Some(e) || lookup(table, event.second()) == Some(e)) by {
            law_only_touched_bullets_end(before, table, event, e);
        }
        assert forall|e: Entity|
            (alive(after, e) <==> alive(before, e) && !ended_now.contains(e)) && (is_bullet(
                after,
                e,
            ) <==> is_bullet(before, e) && !ended_now.contains(e)) by {
            law_only_touched_bullets_end(before, table, event, e);
        }
        law_only_touched_bullets_end(before, table, event, Entity { index: 0 });
        assert forall|e: Entity| all.contains(e) <==> ended_before.contains(e)
            || ended_now.contains(e) by {
            if ended_before.contains(e) {
                let i = choose|i: int| 0 <= i < ended_before.len() && ended_before[i] == e;
                assert(all[i] == e);
            }
            if ended_now.contains(e) {
                let i = choose|i: int| 0 <= i < ended_now.len() && ended_now[i] == e;
                assert(all[ended_before.len() + i] == e);
            }
            if all.contains(e) {
                let i = choose|i: int| 0 <= i < all.len() && all[i] == e;
                if i < ended_before.len() {
                    assert(ended_before[i] == e);
                } else {
                    assert(ended_now[i - ended_before.len()] == e);
                }
            }
        }
        assert forall|i: int, j: int| 0 <= i < all.len() && 0 <= j < all.len() && i != j implies all[i]
            != all[j] by {
            let n = ended_before.len() as int;
            if i < n && j >= n {
                assert(ended_before.contains(all[i]));
                assert(ended_now.contains(all[j]));
            } else if j < n && i >= n {
                assert(ended_before.contains(all[j]));
                assert(ended_now.contains(all[i]));
            } else if i >= n && j >= n {
                assert(ended_now[i - n] != ended_now[j - n]);
            } else {
                assert(ended_before[i] != ended_before[j]);
            }
        }
    }
}

/// After a contact event a player is grounded exactly as follows: where the
/// event names the player and a planet, the player is grounded if the
/// contact has begun and not grounded if it has ended; after any other event
/// the player is grounded as before.
pub proof fn law_grounded_follows_planet_contact(
    w: Slots,
    table: Map<u64, Entity>,
    event: ContactEvent,
    player: Entity,
)
    requires
        is_player(w, player),
    ensures
        ({
            let a = lookup(table, event.first());
            let b = lookup(table, event.second());
            let touches = (names_planet(w, a) || names_planet(w, b)) && (a == Some(player) || b
                == Some(player));
            grounded_flag(after_contact(w, table, event), player) == Some(
                if touches {
                    event.is_started()
                } else {
                    grounded_flag(w, player)->0
                },
            )
        }),
{
}

/// Whether the contact event `event` is one between `player` and a planet.
pub open spec fn grounds(w: Slots, table: Map<u64, Entity>, event: ContactEvent, player: Entity) -> bool {
    let a = lookup(table, event.first());
    let b = lookup(table, event.second());
    (names_planet(w, a) || names_planet(w, b)) && (a == Some(player) || b == Some(player))
}

/// Whether the last contact of `events` between `player` and a planet has
/// begun, if there is one.
pub open spec fn last_planet_contact(
    w: Slots,
    table: Map<u64, Entity>,
    events: Seq<ContactEvent>,
    player: Entity,
) -> Option<bool>
    decreases events.len(),
{
    if events.len() == 0 {
        None
    } else if grounds(w, table, events.last(), player) {
        Some(events.last().is_started())
    } else {
        last_planet_contact(w, table, events.drop_last(), player)
    }
}

/// After all the contact events of a step a player is grounded if and only
/// if its last contact with a planet has begun and not ended; a player that
/// had no contact with a planet in the step is grounded as before. Contacts
/// make no planet and no player, and unmake none.
pub proof fn law_grounded_means_touching_a_planet(
    w: Slots,
    table: Map<u64, Entity>,
    events: Seq<ContactEvent>,
    player: Entity,
)
    requires
        is_player(w, player),
    ensures
        forall|e: Entity| #[trigger] is_planet(after_contacts(w, table, events), e) == is_planet(w, e),
        forall|e: Entity| #[trigger] is_player(after_contacts(w, table, events), e) == is_player(w, e),
        grounded_flag(after_contacts(w, table, events), player) == Some(
            match last_planet_contact(w, table, events, player) {
                Some(touching) => touching,
                None => grounded_flag(w, player)->0,
            },
        ),
    decreases events.len(),
{
    if events.len() > 0 {
        let earlier = events.drop_last();
        let before = after_contacts(w, table, earlier);
        law_grounded_means_touching_a_planet(w, table, earlier, player);
        law_grounded_follows_planet_contact(before, table, events.last(), player);
        assert(names_planet(before, lookup(table, events.last().first())) == names_planet(
            w,
            lookup(table, events.last().first()),
        ));
        assert(names_planet(before, lookup(table, events.last().second())) == names_planet(
            w,
            lookup(table, events.last().second()),
        ));
        let after = after_contacts(w, table, events);
        assert(after == after_contact(before, table, events.last()));
        assert forall|e: Entity| #[trigger] is_planet(after, e) == is_planet(w, e) by {
            assert(is_planet(after, e) == is_planet(before, e));
        }
        assert forall|e: Entity| #[trigger] is_player(after, e) == is_player(w, e) by {
            assert(is_player(after, e) == is_player(before, e));
        }
    }
}

/// A contact in which no planet takes part, such as one between two bullets,
/// changes the grounded flag of no player.
pub proof fn law_contact_without_planet_keeps_grounded(
    w: Slots,
    table: Map<u64, Entity>,
    event: ContactEvent,
    player: Entity,
)
    requires
        !names_planet(w, lookup(table, event.first())),
        !names_planet(w, lookup(table, event.second())),
    ensures
        grounded_flag(after_contact(w, table, event), player) == grounded_flag(w, player),
{
}

/// A contact event changes nothing of a planet or an atmosphere, nor where a
/// body stands or what pulls it.
pub proof fn law_contact_keeps_planets_and_bodies(
    w: Slots,
    table: Map<u64, Entity>,
    event: ContactEvent,
    e: Entity,
)
    ensures
        ({
            let after = after_contact(w, table, event);
            &&& after.len() == w.len()
            &&& (is_planet(w, e) || is_atmosphere(w, e)) ==> components(after, e) == components(
                w,
                e,
            )
            &&& alive(after, e) ==> components(after, e)->0.body == components(w, e)->0.body
            &&& alive(after, e) ==> attraction(after, e) == attraction(w, e)
        }),
{
}


/// The atmosphere that pulls a body after the sensor of `atmosphere` has
/// reported `status` for it.
pub fn next_attraction(current: Attractable, atmosphere: Entity, status: Proximity) -> (next:
    Attractable)
    ensures
        next == attraction_after(current, atmosphere, status),
        status is Intersecting ==> next.0 == Some(atmosphere),
        status is WithinMargin ==> next == current,
        status is Disjoint && current.0 != Some(atmosphere) ==> next == current,
        status is Disjoint && current.0 == Some(atmosphere) ==> next.0 is None,
{
    match status {
        Proximity::Intersecting => Attractable(Some(atmosphere)),
        Proximity::WithinMargin => current,
        Proximity::Disjoint => match current.0 {
            Some(e) => if e == atmosphere {
                Attractable(None)
            } else {
                current
            },
            None => current,
        },
    }
}

/// The entity that owns the body or collider `handle`, if the table knows it.
pub fn entity_of(table: &HashMap<u64, Entity>, handle: u64) -> (e: Option<Entity>)
    ensures
        e == lookup(table@, handle),
{
    match table.get(&handle) {
        Some(e) => Some(*e),
        None => None,
    }
}

/// Whether `e` names an atmosphere with a body.
fn names_atmosphere(world: &World, e: Option<Entity>) -> (b: bool)
    ensures
        b == (e matches Some(x) && is_atmosphere(world@, x)),
{
    match e {
        Some(x) => match world.get(x) {
            Some(Components { kind: Kind::Atmosphere(_), body: Some(_), .. }) => true,
            _ => false,
        },
        None => false,
    }
}

/// Records for `e` that `atmosphere` has reported `status` for it.
fn attract(world: &mut World, e: Option<Entity>, atmosphere: Entity, status: Proximity)
    ensures
        final(world)@ == attracted(old(world)@, e, atmosphere, status),
{
    match e {
        Some(x) => {
            if x != atmosphere {
                match world.get(x) {
                    Some(Components { kind, attractable: Some(current), body }) => {
                        let next = next_attraction(current, atmosphere, status);
                        world.replace(x, Components { kind, attractable: Some(next), body });
                    },
                    _ => {},
                }
            }
        },
        None => {},
    }
}

/// Takes one proximity event into the world. An event between two bodies of
/// which neither is an atmosphere changes nothing; nor does a handle that
/// the table does not know, or an entity that is gone or cannot be pulled.
pub fn on_proximity(world: &mut World, table: &HashMap<u64, Entity>, event: ProximityEvent)
    ensures
        final(world)@ == after_proximity(old(world)@, table@, event),
        final(world)@.len() == old(world)@.len(),
{
    let a = entity_of(table, event.collider1);
    let b = entity_of(table, event.collider2);
    let sensed = if names_atmosphere(world, a) {
        a
    } else if names_atmosphere(world, b) {
        b
    } else {
        None
    };
    match sensed {
        Some(atmosphere) => {
            attract(world, a, atmosphere, event.new_status);
            attract(world, b, atmosphere, event.new_status);
        },
        None => {},
    }
}

/// Whether `e` names a planet.
fn is_planet_entity(world: &World, e: Option<Entity>) -> (b: bool)
    ensures
        b == names_planet(world@, e),
{
    match e {
        Some(x) => match world.get(x) {
            Some(Components { kind: Kind::Planet(_), .. }) => true,
            _ => false,
        },
        None => false,
    }
}

/// Sets the grounded flag of `e`, if `e` is a player.
fn ground(world: &mut World, e: Option<Entity>, is_grounded: bool)
    ensures
        final(world)@ == grounded(old(world)@, e, is_grounded),
{
    match e {
        Some(x) => match world.get(x) {
            Some(Components { kind: Kind::Player(_), attractable, body }) => {
                world.replace(
                    x,
                    Components { kind: Kind::Player(Player { is_grounded }), attractable, body },
                );
            },
            _ => {},
        },
        None => {},
    }
}

/// Removes `e`, if `e` is a bullet, and says whether it did.
fn end_bullet(world: &mut World, e: Option<Entity>) -> (ended: bool)
    ensures
        final(world)@ == without_bullet(old(world)@, e),
        ended == names_bullet(old(world)@, e),
{
    match e {
        Some(x) => match world.get(x) {
            Some(Components { kind: Kind::Bullet(_), .. }) => {
                world.despawn(x);
                true
            },
            _ => false,
        },
        None => false,
    }
}

/// Takes one contact event into the world and returns the bullets that it
/// ended. Where one of the two bodies is a planet, each of them that is a
/// player is grounded if the contact has begun and not grounded if it has
/// ended; no other contact changes a grounded flag. Each of the two that is
/// a bullet leaves the world, whether the contact has begun or ended.
pub fn on_contact(world: &mut World, table: &HashMap<u64, Entity>, event: ContactEvent) -> (ended:
    Vec<Entity>)
    ensures
        final(world)@ == after_contact(old(world)@, table@, event),
        ended@ == ended_by_contact(old(world)@, table@, event),
        final(world)@.len() == old(world)@.len(),
{
    let (first, second, is_started) = match event {
        ContactEvent::Started(h1, h2) => (h1, h2, true),
        ContactEvent::Stopped(h1, h2) => (h1, h2, false),
    };
    let a = entity_of(table, first);
    let b = entity_of(table, second);
    let planet_a = is_planet_entity(world, a);
    let planet_b = is_planet_entity(world, b);
    if planet_a || planet_b {
        ground(world, a, is_started);
        ground(world, b, is_started);
    }
    let mut ended: Vec<Entity> = Vec::new();
    if end_bullet(world, a) {
        match a {
            Some(x) => {
                ended.push(x);
            },
            None => {},
        }
    }
    if end_bullet(world, b) {
        match b {
            Some(y) => {
                ended.push(y);
            },
            None => {},
        }
    }
    ended
}

/// Takes all that the physics engine reported after a step into the world:
/// first every proximity event, in its order, then every contact event, in
/// its order. Returns the bullets that ended, in the order in which they
/// ended.
pub fn physics_events(
    world: &mut World,
    table: &HashMap<u64, Entity>,
    proximity_events: &Vec<ProximityEvent>,
    contact_events: &Vec<ContactEvent>,
) -> (ended: Vec<Entity>)
    ensures
        final(world)@ == after_contacts(
            after_proximities(old(world)@, table@, proximity_events@),
            table@,
            contact_events@,
        ),
        ended@ == ended_by_contacts(
            after_proximities(old(world)@, table@, proximity_events@),
            table@,
            contact_events@,
        ),
        final(world)@.len() == old(world)@.len(),
{
    let ghost start = world@;
    let mut i: usize = 0;
    while i < proximity_events.len()
        invariant
            i <= proximity_events.len(),
            world@ == after_proximities(start, table@, proximity_events@.take(i as int)),
            world@.len() == start.len(),
        decreases proximity_events.len() - i,
    {
        proof {
            let next = proximity_events@.take(i + 1);
            assert(next.drop_last() == proximity_events@.take(i as int));
            assert(next.last() == proximity_events@[i as int]);
        }
        on_proximity(world, table, proximity_events[i]);
        i += 1;
    }
    assert(proximity_events@.take(i as int) == proximity_events@);
    let ghost sensed = world@;
    let mut ended: Vec<Entity> = Vec::new();
    let mut j: usize = 0;
    while j < contact_events.len()
        invariant
            j <= contact_events.len(),
            world@ == after_contacts(sensed, table@, contact_events@.take(j as int)),
            ended@ == ended_by_contacts(sensed, table@, contact_events@.take(j as int)),
            world@.len() == start.len(),
        decreases contact_events.len() - j,
    {
        proof {
            let next = contact_events@.take(j + 1);
            assert(next.drop_last() == contact_events@.take(j as int));
            assert(next.last() == contact_events@[j as int]);
        }
        let mut more = on_contact(world, table, contact_events[j]);
        ended.append(&mut more);
        j += 1;
    }
    assert(contact_events@.take(j as int) == contact_events@);
    ended
}

} // verus!
