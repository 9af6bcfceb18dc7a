//! Pufferfish, which blow up when they are threatened.

use vstd::prelude::*;

use crate::effect::{Effect, Sound, SyncedValue};
use crate::fish::{goals_alone, lone_fish_goals};
use crate::goal::GoalEntry;
use crate::mob::MobEntity;
use crate::nbt::{int_at, NbtCompound, NbtValue};

verus! {

/// How long a threat has to last before a pufferfish blows up fully.
pub const HALF_PUFF_INFLATE_TICKS: i32 = 40;

/// How long a pufferfish stays fully blown up once the threat is gone.
pub const HALF_DEFLATE_TICKS: i32 = 60;

/// How long a pufferfish stays blown up at all once the threat is gone.
pub const FULL_DEFLATE_TICKS: i32 = 100;

/// How far a pufferfish is blown up: its state (none, half, full), the ticks since a threat
/// came, and the ticks since it went.
#[derive(Clone, Copy, PartialEq, Eq, Structural, Debug)]
pub struct Puff {
    pub state: u8,
    pub inflate_counter: i32,
    pub deflate_timer: i32,
}

/// The counters as a tick begins: a threat that comes starts both, one that goes stops the
/// first.
pub open spec fn puff_noticed(threat: bool, puff: Puff) -> Puff {
    if threat && puff.inflate_counter == 0 {
        Puff { inflate_counter: 1, deflate_timer: 0, ..puff }
    } else if !threat && puff.inflate_counter > 0 {
        Puff { inflate_counter: 0, ..puff }
    } else {
        puff
    }
}

/// Whether a pufferfish blows itself up further.
pub open spec fn blows_up(noticed: Puff) -> bool {
    noticed.inflate_counter > 0 && (noticed.state == 0 || noticed.state == 1
        && noticed.inflate_counter > HALF_PUFF_INFLATE_TICKS)
}

/// Whether a pufferfish lets air out.
pub open spec fn blows_out(noticed: Puff) -> bool {
    noticed.inflate_counter <= 0 && (noticed.state == 2 && noticed.deflate_timer
        > HALF_DEFLATE_TICKS || noticed.state == 1 && noticed.deflate_timer > FULL_DEFLATE_TICKS)
}

/// A pufferfish after one tick.
pub open spec fn puff_ticked(threat: bool, puff: Puff) -> Puff {
    let noticed = puff_noticed(threat, puff);
    Puff {
        state: if blows_up(noticed) {
            (noticed.state + 1) as u8
        } else if blows_out(noticed) {
            (noticed.state - 1) as u8
        } else {
            noticed.state
        },
        inflate_counter: if noticed.inflate_counter > 0 {
            (noticed.inflate_counter + 1) as i32
        } else {
            noticed.inflate_counter
        },
        deflate_timer: if noticed.inflate_counter <= 0 && noticed.state != 0 {
            (noticed.deflate_timer + 1) as i32
        } else {
            noticed.deflate_timer
        },
    }
}

/// Whether the counters of a pufferfish have room for one more tick.
pub open spec fn counters_fit(threat: bool, puff: Puff) -> bool {
    let noticed = puff_noticed(threat, puff);
    &&& noticed.inflate_counter < i32::MAX
    &&& noticed.inflate_counter <= 0 && noticed.state != 0 ==> noticed.deflate_timer < i32::MAX
}

/// One tick of a pufferfish: its state, the two counters, and whether it blows itself up or
/// lets air out.
pub fn advance_puff_state(
    threat_present: bool,
    puff_state: u8,
    inflate_counter: i32,
    deflate_timer: i32,
) -> (next: (u8, i32, i32, bool, bool))
    requires
        counters_fit(
            threat_present,
            (Puff { state: puff_state, inflate_counter, deflate_timer }),
        ),
    ensures
        ({
            let puff = Puff { state: puff_state, inflate_counter, deflate_timer };
            let noticed = puff_noticed(threat_present, puff);
            &&& (Puff { state: next.0, inflate_counter: next.1, deflate_timer: next.2 })
                == puff_ticked(threat_present, puff)
            &&& next.3 == blows_up(noticed)
            &&& next.4 == blows_out(noticed)
        }),
{
    let mut state: u8 = puff_state;
    let mut inflate: i32 = inflate_counter;
    let mut deflate: i32 = deflate_timer;
    if threat_present && inflate == 0 {
        inflate = 1;
        deflate = 0;
    } else if !threat_present && inflate > 0 {
        inflate = 0;
    }
    let mut blow_up: bool = false;
    let mut blow_out: bool = false;
    if inflate > 0 {
        if state == 0 {
            blow_up = true;
            state = 1;
        } else if inflate > HALF_PUFF_INFLATE_TICKS && state == 1 {
            blow_up = true;
            state = 2;
        }
        inflate = inflate + 1;
    } else if state != 0 {
        if deflate > HALF_DEFLATE_TICKS && state == 2 {
            blow_out = true;
            state = 1;
        } else if deflate > FULL_DEFLATE_TICKS && state == 1 {
            blow_out = true;
            state = 0;
        }
        deflate = deflate + 1;
    }
    (state, inflate, deflate, blow_up, blow_out)
}

/// A pufferfish after some ticks.
pub open spec fn puff_after(threat: bool, puff: Puff, ticks: nat) -> Puff
    decreases ticks,
{
    if ticks == 0 {
        puff
    } else {
        puff_ticked(threat, puff_after(threat, puff, (ticks - 1) as nat))
    }
}

/// A lasting threat blows a pufferfish up halfway at once, and fully after forty more ticks.
pub proof fn law_threat_blows_up(ticks: nat)
    requires
        1 <= ticks < i32::MAX,
    ensures
        ({
            let puff = puff_after(
                true,
                (Puff { state: 0, inflate_counter: 0, deflate_timer: 0 }),
                ticks,
            );
            &&& puff.state == (if ticks <= HALF_PUFF_INFLATE_TICKS { 1u8 } else { 2u8 })
            &&& puff.inflate_counter == ticks + 1
            &&& puff.deflate_timer == 0
        }),
    decreases ticks,
{
    let calm = Puff { state: 0, inflate_counter: 0, deflate_timer: 0 };
    if ticks == 1 {
        assert(puff_after(true, calm, 0) == calm);
        assert(puff_after(true, calm, 1) == puff_ticked(true, calm));
    } else {
        law_threat_blows_up((ticks - 1) as nat);
    }
}

/// Without a threat a full pufferfish lets air out in time: halfway first, and then fully.
pub proof fn law_calm_lets_air_out(ticks: nat)
    ensures
        ({
            let puff = puff_after(
                false,
                (Puff { state: 2, inflate_counter: 0, deflate_timer: 0 }),
                ticks,
            );
            &&& puff.inflate_counter == 0
            &&& ticks <= FULL_DEFLATE_TICKS + 2 ==> puff.deflate_timer == ticks
            &&& puff.state == (if ticks < HALF_DEFLATE_TICKS + 2 {
                2u8
            } else if ticks < FULL_DEFLATE_TICKS + 2 {
                1u8
            } else {
                0u8
            })
        }),
    decreases ticks,
{
    if ticks > 0 {
        law_calm_lets_air_out((ticks - 1) as nat);
    }
}

/// A pufferfish is never more than fully blown up.
pub proof fn law_puff_state_stays_in_bounds(threat: bool, puff: Puff)
    requires
        puff.state <= 2,
    ensures
        puff_ticked(threat, puff).state <= 2,
{
}

/// The damage of a sting.
pub fn sting_damage(puff_state: u8) -> (damage: u32)
    ensures
        damage == 1 + puff_state,
{
    1 + puff_state as u32
}

/// How long a sting poisons.
pub fn sting_poison_duration(puff_state: u8) -> (ticks: i32)
    ensures
        ticks == 60 * puff_state,
{
    60 * puff_state as i32
}

/// How far a pufferfish looks for threats, in thousandths.
pub const THREAT_RADIUS: u32 = 2000;

/// How far a pufferfish stings, in thousandths.
pub const STING_RADIUS: u32 = 1000;

/// Someone near a pufferfish.
#[derive(Clone, Copy)]
pub struct NearbyEntity {
    pub id: u128,
    pub living: bool,
    pub alive: bool,
    pub is_player: bool,
    /// Whether it is a player in creative mode.
    pub creative: bool,
    /// Whether its kind does not scare pufferfish.
    pub harmless: bool,
}

/// Whether someone scares a pufferfish.
pub open spec fn scares(candidate: NearbyEntity) -> bool {
    !candidate.creative && !candidate.harmless
}

/// Whether someone scares a pufferfish.
pub fn is_scary(candidate: &NearbyEntity) -> (scary: bool)
    ensures
        scary == scares(*candidate),
{
    if candidate.creative {
        return false;
    }
    !candidate.harmless
}

/// Whether someone threatens a pufferfish.
pub open spec fn threatens(candidate: NearbyEntity, own: u128) -> bool {
    candidate.id != own && candidate.living && candidate.alive && scares(candidate)
}

/// Whether a puffed pufferfish stings someone it touches.
pub open spec fn is_stung(candidate: NearbyEntity, own: u128) -> bool {
    candidate.id != own && candidate.living && candidate.alive && !candidate.is_player
}

/// Those of a list whom a pufferfish stings, in order.
pub open spec fn stung_of(nearby: Seq<NearbyEntity>, own: u128) -> Seq<u128>
    decreases nearby.len(),
{
    if nearby.len() == 0 {
        seq![]
    } else {
        let before = stung_of(nearby.drop_last(), own);
        if is_stung(nearby.last(), own) {
            before.push(nearby.last().id)
        } else {
            before
        }
    }
}

/// A pufferfish.
pub struct PufferfishEntity {
    pub mob_entity: MobEntity,
    pub puff_state: u8,
    pub inflate_counter: i32,
    pub deflate_timer: i32,
}

/// The message that tells clients how far a pufferfish is blown up.
pub open spec fn puff_sync(state: u8) -> Effect {
    Effect::Sync(SyncedValue::PuffState(state as i32))
}

/// What one tick of a pufferfish asks of the host.
pub open spec fn puff_effects(threat: bool, puff: Puff) -> Seq<Effect> {
    let noticed = puff_noticed(threat, puff);
    if blows_up(noticed) {
        seq![
            puff_sync(puff_ticked(threat, puff).state),
            Effect::Play(Sound::PufferFishBlowUp),
        ]
    } else if blows_out(noticed) {
        seq![
            puff_sync(puff_ticked(threat, puff).state),
            Effect::Play(Sound::PufferFishBlowOut),
        ]
    } else {
        seq![]
    }
}

impl PufferfishEntity {
    /// How far the pufferfish is blown up.
    pub open spec fn puff(self) -> Puff {
        Puff {
            state: self.puff_state,
            inflate_counter: self.inflate_counter,
            deflate_timer: self.deflate_timer,
        }
    }

    /// A new pufferfish.
    pub fn new(age: i32) -> (fish: Self)
        ensures
            fish.mob_entity.fresh(age),
            fish.mob_entity.goals@ == lone_fish_goals(),
            fish.mob_entity.targets@ == Seq::<GoalEntry>::empty(),
            fish.puff() == (Puff { state: 0, inflate_counter: 0, deflate_timer: 0 }),
    {
        PufferfishEntity {
            mob_entity: MobEntity::with_goals(age, goals_alone(), Vec::new()),
            puff_state: 0,
            inflate_counter: 0,
            deflate_timer: 0,
        }
    }

    fn send_puff_state(&self, state: u8, effects: &mut Vec<Effect>)
        ensures
            final(effects)@ == old(effects)@.push(puff_sync(state)),
    {
        effects.push(Effect::Sync(SyncedValue::PuffState(state as i32)));
    }

    /// How far around the pufferfish the host looks for those that may threaten it.
    pub fn threat_radius(&self) -> (radius: u32)
        ensures
            radius == THREAT_RADIUS,
    {
        THREAT_RADIUS
    }

    /// How far around the pufferfish the host looks for those that may be stung, if it stings at
    /// all.
    pub fn sting_radius(&self) -> (radius: Option<u32>)
        ensures
            radius == (if self.puff_state == 0 {
                None
            } else {
                Some(STING_RADIUS)
            }),
    {
        if self.puff_state == 0 {
            return None;
        }
        Some(STING_RADIUS)
    }

    /// Whether someone among those within the threat radius threatens the pufferfish, whose own
    /// number is given.
    pub fn threat_nearby(&self, own: u128, nearby: &Vec<NearbyEntity>) -> (threat: bool)
        ensures
            threat == exists|i: int|
                0 <= i < nearby@.len() && threatens(#[trigger] nearby@[i], own),
    {
        let mut i: usize = 0;
        while i < nearby.len()
            invariant
                i <= nearby.len(),
                forall|j: int| 0 <= j < i ==> !threatens(#[trigger] nearby@[j], own),
            decreases nearby.len() - i,
        {
            let candidate = nearby[i];
            if candidate.id != own && candidate.living && candidate.alive && is_scary(&candidate) {
                assert(threatens(nearby@[i as int], own));
                return true;
            }
            i = i + 1;
        }
        false
    }

    /// Those within the sting radius whom the pufferfish stings: all other living mobs while it is blown up, and
    /// no player.
    pub fn sting_nearby_mobs(&self, own: u128, nearby: &Vec<NearbyEntity>) -> (stung: Vec<u128>)
        ensures
            stung@ == (if self.puff_state == 0 {
                Seq::<u128>::empty()
            } else {
                stung_of(nearby@, own)
            }),
    {
        let mut stung: Vec<u128> = Vec::new();
        if self.puff_state == 0 {
            return stung;
        }
        let mut i: usize = 0;
        while i < nearby.len()
            invariant
                i <= nearby.len(),
                stung@ == stung_of(nearby@.take(i as int), own),
            decreases nearby.len() - i,
        {
            assert(nearby@.take(i + 1).drop_last() =~= nearby@.take(i as int));
            let candidate = nearby[i];
            if candidate.id != own && candidate.living && candidate.alive && !candidate.is_player {
                stung.push(candidate.id);
            }
            i = i + 1;
        }
        assert(nearby@.take(i as int) =~= nearby@);
        stung
    }

    /// The damage that a touch of the pufferfish does, if any.
    pub fn sting(&self) -> (damage: Option<u32>)
        ensures
            damage == (if self.puff_state == 0 {
                None
            } else {
                Some((1 + self.puff_state) as u32)
            }),
    {
        if self.puff_state == 0 {
            return None;
        }
        Some(sting_damage(self.puff_state))
    }

    /// What follows a sting: a living target that was hurt is poisoned, and every hurt sounds.
    pub fn finish_sting(&self, damaged: bool, target_is_living: bool, effects: &mut Vec<Effect>)
        ensures
            final(effects)@ == old(effects)@ + (if !damaged {
                seq![]
            } else if target_is_living {
                seq![
                    Effect::PoisonTarget((60 * self.puff_state) as i32),
                    Effect::Play(Sound::PufferFishSting),
                ]
            } else {
                seq![Effect::Play(Sound::PufferFishSting)]
            }),
    {
        if damaged {
            if target_is_living {
                effects.push(Effect::PoisonTarget(sting_poison_duration(self.puff_state)));
            }
            effects.push(Effect::Play(Sound::PufferFishSting));
        }
    }

    /// One tick, but for the stings.
    pub fn mob_tick(&mut self, dead: bool, threat_present: bool, effects: &mut Vec<Effect>)
        requires
            dead || counters_fit(threat_present, old(self).puff()),
        ensures
            final(self).mob_entity == old(self).mob_entity,
            final(self).puff() == (if dead {
                old(self).puff()
            } else {
                puff_ticked(threat_present, old(self).puff())
            }),
            final(effects)@ == old(effects)@ + (if dead {
                seq![]
            } else {
                puff_effects(threat_present, old(self).puff())
            }),
    {
        if dead {
            return ;
        }
        let (state, inflate, deflate, blow_up, blow_out) = advance_puff_state(
            threat_present,
            self.puff_state,
            self.inflate_counter,
            self.deflate_timer,
        );
        self.inflate_counter = inflate;
        self.deflate_timer = deflate;
        if state != self.puff_state {
            self.puff_state = state;
            self.send_puff_state(state, effects);
        }
        if blow_up || blow_out {
            let sound = if blow_up {
                Sound::PufferFishBlowUp
            } else {
                Sound::PufferFishBlowOut
            };
            effects.push(Effect::Play(sound));
        }
    }

    /// Tells clients about the pufferfish when they first see it.
    pub fn mob_init_data_tracker(&self, effects: &mut Vec<Effect>)
        ensures
            final(effects)@ == old(effects)@.push(puff_sync(self.puff_state)),
    {
        self.send_puff_state(self.puff_state, effects);
    }

    /// Saves the pufferfish.
    pub fn write_nbt(&self, nbt: &mut NbtCompound)
        ensures
            final(nbt)@ == puffer_saved(old(nbt)@, *self),
    {
        nbt.put_int("PuffState", self.puff_state as i32);
    }

    /// Restores the pufferfish, at most fully blown up.
    pub fn read_nbt(&mut self, nbt: &NbtCompound)
        ensures
            *final(self) == puffer_restored(*old(self), nbt@),
            final(self).puff_state <= 2,
    {
        let state: i32 = nbt.get_int("PuffState").unwrap_or(0);
        self.puff_state = if state < 0 {
            0
        } else if state > 2 {
            2
        } else {
            state as u8
        };
    }
}

/// What is saved of a pufferfish.
pub open spec fn puffer_saved(nbt: Map<Seq<char>, NbtValue>, fish: PufferfishEntity) -> Map<
    Seq<char>,
    NbtValue,
> {
    nbt.insert("PuffState"@, NbtValue::Int(fish.puff_state as i32))
}

/// A pufferfish with its saved state restored.
pub open spec fn puffer_restored(
    fish: PufferfishEntity,
    nbt: Map<Seq<char>, NbtValue>,
) -> PufferfishEntity {
    let state = match int_at(nbt, "PuffState"@) {
        Some(state) => state,
        None => 0,
    };
    PufferfishEntity {
        puff_state: if state < 0 {
            0
        } else if state > 2 {
            2
        } else {
            state as u8
        },
        ..fish
    }
}

/// Restoring a saved pufferfish gives back how far it is blown up.
pub proof fn law_puffer_round_trip(
    nbt: Map<Seq<char>, NbtValue>,
    fish: PufferfishEntity,
    other: PufferfishEntity,
)
    requires
        fish.puff_state <= 2,
    ensures
        puffer_restored(other, puffer_saved(nbt, fish)).puff_state == fish.puff_state,
{
}

/// A threat starts the count of blowing up, which calm ends; nothing else of the fish changes at
/// that.
pub proof fn law_fish_notices_threats(threat: bool, puff: Puff)
    ensures
        threat && puff.inflate_counter == 0 ==> puff_noticed(threat, puff).inflate_counter == 1
            && puff_noticed(threat, puff).deflate_timer == 0,
        threat && puff.inflate_counter != 0 ==> puff_noticed(threat, puff) == puff,
        !threat && puff.inflate_counter > 0 ==> puff_noticed(threat, puff).inflate_counter == 0,
        !threat ==> puff_noticed(threat, puff).deflate_timer == puff.deflate_timer,
        !threat && puff.inflate_counter <= 0 ==> puff_noticed(threat, puff) == puff,
        puff_noticed(threat, puff).state == puff.state,
{
}

/// A threatened fish goes from calm to half blown at once and on to fully blown after forty ticks;
/// it never shrinks meanwhile, and its count runs on.
pub proof fn law_threatened_fish_grows(puff: Puff)
    requires
        0 <= puff.inflate_counter < i32::MAX,
        puff.state <= 2,
    ensures
        ({
            let after = puff_ticked(true, puff);
            &&& puff.state == 0 ==> after.state == 1
            &&& puff.state == 1 && puff.inflate_counter > 40 ==> after.state == 2
            &&& puff.state == 1 && puff.inflate_counter <= 40 ==> after.state == 1
            &&& puff.state == 2 ==> after.state == 2
            &&& puff.inflate_counter > 0 ==> after.inflate_counter == puff.inflate_counter + 1
                && after.deflate_timer == puff.deflate_timer
            &&& puff.inflate_counter == 0 ==> after.inflate_counter == 2 && after.deflate_timer == 0
        }),
{
}

/// A fish left alone shrinks from full to half after sixty ticks and from half to calm after a
/// hundred; it never grows meanwhile.
pub proof fn law_calm_fish_shrinks(puff: Puff)
    requires
        0 <= puff.inflate_counter,
        puff.deflate_timer < i32::MAX,
        puff.state <= 2,
    ensures
        ({
            let after = puff_ticked(false, puff);
            &&& after.inflate_counter == 0
            &&& puff.state == 0 ==> after.state == 0 && after.deflate_timer == puff.deflate_timer
            &&& puff.state == 1 && puff.deflate_timer > 100 ==> after.state == 0
            &&& puff.state == 1 && puff.deflate_timer <= 100 ==> after.state == 1
            &&& puff.state == 2 && puff.deflate_timer > 60 ==> after.state == 1
            &&& puff.state == 2 && puff.deflate_timer <= 60 ==> after.state == 2
            &&& puff.state != 0 ==> after.deflate_timer == puff.deflate_timer + 1
        }),
{
}

/// A change of size is told and heard, louder or softer as the fish grows or shrinks; where the
/// size stays, nothing is.
pub proof fn law_size_changes_are_told(threat: bool, puff: Puff)
    requires
        puff.state <= 2,
        0 <= puff.inflate_counter < i32::MAX,
        puff.deflate_timer < i32::MAX,
    ensures
        ({
            let after = puff_ticked(threat, puff);
            let told = puff_effects(threat, puff);
            &&& after.state == puff.state <==> told.len() == 0
            &&& after.state != puff.state ==> told.len() == 2 && told[0] == Effect::Sync(
                SyncedValue::PuffState(after.state as i32),
            )
            &&& after.state > puff.state ==> told[1] == Effect::Play(Sound::PufferFishBlowUp)
            &&& after.state < puff.state ==> told[1] == Effect::Play(Sound::PufferFishBlowOut)
            &&& after.state > puff.state <==> blows_up(puff_noticed(threat, puff))
            &&& after.state < puff.state <==> blows_out(puff_noticed(threat, puff))
        }),
{
}

/// Others that live threaten a fish unless they are creative or harmless; it stings all others
/// that live, save players.
pub proof fn law_whom_the_fish_fears_and_stings(candidate: NearbyEntity, own: u128)
    ensures
        candidate.id == own ==> !threatens(candidate, own) && !is_stung(candidate, own),
        !candidate.living || !candidate.alive ==> !threatens(candidate, own) && !is_stung(
            candidate,
            own,
        ),
        candidate.id != own && candidate.living && candidate.alive ==> (threatens(candidate, own)
            <==> !(candidate.creative || candidate.harmless)),
        candidate.id != own && candidate.living && candidate.alive ==> (is_stung(candidate, own)
            <==> !candidate.is_player),
        scares(candidate) <==> !(candidate.creative || candidate.harmless),
{
}

/// All that are stung are nearby, live, are others and no players; and all such are stung.
pub proof fn law_who_is_stung(nearby: Seq<NearbyEntity>, own: u128)
    ensures
        stung_of(nearby, own).len() <= nearby.len(),
        forall|id: u128| #[trigger]
            stung_of(nearby, own).contains(id) <==> exists|i: int|
                0 <= i < nearby.len() && (#[trigger] nearby[i]).id == id && id != own && nearby[i].living
                    && nearby[i].alive && !nearby[i].is_player,
    decreases nearby.len(),
{
    if nearby.len() > 0 {
        let rest = nearby.drop_last();
        let before = stung_of(rest, own);
        law_who_is_stung(rest, own);
        assert forall|id: u128| #[trigger] stung_of(nearby, own).contains(id) <==> exists|i: int|
            0 <= i < nearby.len() && (#[trigger] nearby[i]).id == id && id != own && nearby[i].living
                && nearby[i].alive && !nearby[i].is_player by {
            assert(before.contains(id) || !before.contains(id));
            if before.contains(id) {
                let i = choose|i: int|
                    0 <= i < rest.len() && (#[trigger] rest[i]).id == id && id != own && rest[i].living
                        && rest[i].alive && !rest[i].is_player;
                assert(nearby[i] == rest[i]);
                let k = before.index_of(id);
                assert(before[k] == id);
                assert(stung_of(nearby, own)[k] == id);
            }
            if is_stung(nearby.last(), own) && nearby.last().id == id {
                let last = nearby.len() - 1;
                assert(nearby[last].id == id);
                assert(stung_of(nearby, own) == before.push(id));
                assert(stung_of(nearby, own)[before.len() as int] == id);
            }
            if exists|i: int|
                0 <= i < nearby.len() && (#[trigger] nearby[i]).id == id && id != own
                    && nearby[i].living && nearby[i].alive && !nearby[i].is_player {
                let i = choose|i: int|
                    0 <= i < nearby.len() && (#[trigger] nearby[i]).id == id && id != own
                        && nearby[i].living && nearby[i].alive && !nearby[i].is_player;
                if i < nearby.len() - 1 {
                    assert(rest[i] == nearby[i]);
                    assert(before.contains(id));
                }
            }
        }
    }
}

/// A saved size is read back as the nearest size there is, and as calm where none was saved.
pub proof fn law_read_size_is_a_size(fish: PufferfishEntity, nbt: Map<Seq<char>, NbtValue>)
    ensures
        puffer_restored(fish, nbt).puff_state <= 2,
        int_at(nbt, "PuffState"@) is None ==> puffer_restored(fish, nbt).puff_state == 0,
        int_at(nbt, "PuffState"@) is Some && 0 <= int_at(nbt, "PuffState"@)->0 <= 2
            ==> puffer_restored(fish, nbt).puff_state == int_at(nbt, "PuffState"@)->0,
        int_at(nbt, "PuffState"@) is Some && int_at(nbt, "PuffState"@)->0 < 0 ==> puffer_restored(
            fish,
            nbt,
        ).puff_state == 0,
        int_at(nbt, "PuffState"@) is Some && int_at(nbt, "PuffState"@)->0 > 2 ==> puffer_restored(
            fish,
            nbt,
        ).puff_state == 2,
        puffer_restored(fish, nbt).inflate_counter == fish.inflate_counter,
        puffer_restored(fish, nbt).deflate_timer == fish.deflate_timer,
        puffer_restored(fish, nbt).mob_entity == fish.mob_entity,
{
}

/// A fish's counters can run on for as long as neither has reached its end.
pub proof fn law_counters_have_room(threat: bool, puff: Puff)
    requires
        0 <= puff.inflate_counter < i32::MAX,
        puff.deflate_timer < i32::MAX,
    ensures
        counters_fit(threat, puff),
{
}

} // verus!
