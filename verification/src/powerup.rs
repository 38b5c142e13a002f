//! Power-ups: coins that appear on the platform, and what they do to the
//! player who picks one up.

use vstd::prelude::*;
use rand::rngs::StdRng;
use crate::actor::Contact;
use crate::player::Player;
use crate::random::{draw_in_range, draw_percent, PERCENT};
use crate::timer::{Timer, TimerMode};
use crate::vector::Vec3;

verus! {

/// Thousandths of its natural size that a grown player has.
pub const GROW_FACTOR: i32 = 1_500;

/// Thousandths of its natural size that a shrunk player has.
pub const SHRINK_FACTOR: i32 = 500;

/// How long a power-up lasts.
pub const POWERUP_DURATION: u32 = 2_000_000;

/// How long a coin waits to be picked up.
pub const COIN_LIFETIME: u32 = 10_000_000;

/// No coin appears while this many lie around.
pub const MAX_COINS: usize = 2;

/// Coins appear within this distance of the platform's centre on both
/// horizontal axes, at `COIN_HEIGHT`.
pub const COIN_RANGE: i32 = 5_000;

pub const COIN_HEIGHT: i32 = 6_000;

/// The first coin appears after a delay drawn between these two.
pub const FIRST_COIN_DELAY_MIN: u32 = 2_000_000;

pub const FIRST_COIN_DELAY_MAX: u32 = 6_000_000;

/// Every later coin appears after a delay drawn between these two.
pub const NEXT_COIN_DELAY_MIN: u32 = 4_000_000;

pub const NEXT_COIN_DELAY_MAX: u32 = 8_000_000;

/// Chances in a hundred that a coin makes the player grow.
pub const GROW_CHANCE: u32 = 50;

#[derive(Clone, Copy, Debug, PartialEq, Eq, Structural)]
pub enum PowerUpType {
    Grow,
    Shrink,
}

/// A power-up at work, with the time it has left.
#[derive(Clone, Copy, Debug, PartialEq, Eq, Structural)]
pub struct PowerUp {
    pub power_type: PowerUpType,
    pub duration: Timer,
}

/// The power-ups at work on the player, one slot of each type.  Both may
/// be filled at once; the shrinking one then decides the player's size.
#[derive(Clone, Copy, Debug, PartialEq, Eq, Structural)]
pub struct ActivePowerUp {
    pub grow: Option<PowerUp>,
    pub shrink: Option<PowerUp>,
}

/// A coin on the platform.
#[derive(Clone, Copy, Debug, PartialEq, Eq, Structural)]
pub struct PowerUpCoin {
    pub power_type: PowerUpType,
    pub lifetime: Timer,
}

/// A coin that is to appear, and where.
#[derive(Clone, Copy, Debug, PartialEq, Eq, Structural)]
pub struct CoinSpawn {
    pub coin: PowerUpCoin,
    pub position: Vec3,
}

/// What chance contributes to the appearing of coins.
#[derive(Clone, Copy, Debug, PartialEq, Eq, Structural)]
pub struct SpawnDraws {
    /// The delay before the first coin.
    pub first_delay: u32,
    /// A percentage, for the type of the coin.
    pub kind: u32,
    pub x: i32,
    pub z: i32,
    /// The delay before the coin after this one.
    pub next_delay: u32,
}

/// A coin among the things that touch, by its id.
#[derive(Clone, Copy, Debug, PartialEq, Eq, Structural)]
pub struct CoinRef {
    pub id: u64,
    pub power_type: PowerUpType,
}

impl SpawnDraws {
    /// Each draw lies in the range it is drawn from.
    pub open spec fn in_range(self) -> bool {
        &&& FIRST_COIN_DELAY_MIN <= self.first_delay <= FIRST_COIN_DELAY_MAX
        &&& self.kind < PERCENT
        &&& -COIN_RANGE <= self.x < COIN_RANGE
        &&& -COIN_RANGE <= self.z < COIN_RANGE
        &&& NEXT_COIN_DELAY_MIN <= self.next_delay <= NEXT_COIN_DELAY_MAX
    }
}

impl PowerUp {
    pub fn new(power_type: PowerUpType, duration: u32) -> (power_up: PowerUp)
        ensures
            power_up == (PowerUp { power_type, duration: Timer::fresh(duration, TimerMode::Once) }),
    {
        PowerUp { power_type, duration: Timer::new(duration, TimerMode::Once) }
    }
}

impl Default for ActivePowerUp {
    fn default() -> (active: ActivePowerUp)
        ensures
            active == (ActivePowerUp { grow: None, shrink: None }),
    {
        ActivePowerUp { grow: None, shrink: None }
    }
}

/// A slot after `elapsed` microseconds: emptied once its time is up.
pub open spec fn slot_after(slot: Option<PowerUp>, elapsed: u32) -> Option<PowerUp> {
    match slot {
        Some(power_up) => {
            let timer = power_up.duration.ticked(elapsed);
            if timer.finished {
                None
            } else {
                Some(PowerUp { duration: timer, ..power_up })
            }
        },
        None => None,
    }
}

/// The player's scale as one slot leaves it: untouched by an empty slot,
/// the base scale times `factor` while the power-up lasts, the base scale
/// once its time is up.
pub open spec fn scale_after(current: Vec3, base: Vec3, slot: Option<PowerUp>, elapsed: u32, factor: i32) -> Vec3 {
    match slot {
        Some(power_up) => if power_up.duration.ticked(elapsed).finished {
            base
        } else {
            base.spec_scaled(factor as int)
        },
        None => current,
    }
}

/// The power-ups after a coin of type `power_type` was picked up: a free
/// slot of that type is filled, a filled one goes on as it is.
pub open spec fn spec_picked_up(active: ActivePowerUp, power_type: PowerUpType) -> ActivePowerUp {
    match power_type {
        PowerUpType::Grow => if active.grow is None {
            ActivePowerUp {
                grow: Some(
                    PowerUp {
                        power_type: PowerUpType::Grow,
                        duration: Timer::fresh(POWERUP_DURATION, TimerMode::Once),
                    },
                ),
                ..active
            }
        } else {
            active
        },
        PowerUpType::Shrink => if active.shrink is None {
            ActivePowerUp {
                shrink: Some(
                    PowerUp {
                        power_type: PowerUpType::Shrink,
                        duration: Timer::fresh(POWERUP_DURATION, TimerMode::Once),
                    },
                ),
                ..active
            }
        } else {
            active
        },
    }
}

/// One frame of the power-ups at work: each slot's time advances, first
/// the growing one, then the shrinking one, and sets the player's scale as
/// `scale_after` says.  Returns the scale to show where a slot was filled,
/// and nothing where both were empty.
pub fn apply_powerup_effects(player: &mut Player, active: &mut ActivePowerUp, elapsed: u32) -> (shown: Option<Vec3>)
    ensures
        final(active).grow == slot_after(old(active).grow, elapsed),
        final(active).shrink == slot_after(old(active).shrink, elapsed),
        final(player).current_scale == scale_after(
            scale_after(old(player).current_scale, old(player).base_scale, old(active).grow, elapsed, GROW_FACTOR),
            old(player).base_scale,
            old(active).shrink,
            elapsed,
            SHRINK_FACTOR,
        ),
        final(player).base_scale == old(player).base_scale,
        final(player).speed == old(player).speed,
        shown == if old(active).grow is Some || old(active).shrink is Some {
            Some(final(player).current_scale)
        } else {
            None
        },
{
    let mut shown: Option<Vec3> = None;
    if let Some(mut grow) = active.grow {
        grow.duration.tick(elapsed);
        if grow.duration.finished() {
            player.current_scale = player.base_scale;
            active.grow = None;
        } else {
            player.current_scale = player.base_scale.scaled(GROW_FACTOR);
            active.grow = Some(grow);
        }
        shown = Some(player.current_scale);
    }
    if let Some(mut shrink) = active.shrink {
        shrink.duration.tick(elapsed);
        if shrink.duration.finished() {
            player.current_scale = player.base_scale;
            active.shrink = None;
        } else {
            player.current_scale = player.base_scale.scaled(SHRINK_FACTOR);
            active.shrink = Some(shrink);
        }
        shown = Some(player.current_scale);
    }
    shown
}

/// Puts a power-up that was picked up to work: see `spec_picked_up`.
pub fn apply_powerup_effect(active: &mut ActivePowerUp, power_type: PowerUpType)
    ensures
        *final(active) == spec_picked_up(*old(active), power_type),
{
    match power_type {
        PowerUpType::Grow => {
            if active.grow.is_none() {
                active.grow = Some(PowerUp::new(PowerUpType::Grow, POWERUP_DURATION));
            }
        },
        PowerUpType::Shrink => {
            if active.shrink.is_none() {
                active.shrink = Some(PowerUp::new(PowerUpType::Shrink, POWERUP_DURATION));
            }
        },
    }
}

/// One frame of a coin's life.  Says whether its time is up, in which case
/// it is to be taken away.
pub fn remove_expired_powerup_coins(coin: &mut PowerUpCoin, elapsed: u32) -> (expired: bool)
    ensures
        *final(coin) == (PowerUpCoin { lifetime: old(coin).lifetime.ticked(elapsed), ..*old(coin) }),
        expired == final(coin).lifetime.finished,
{
    coin.lifetime.tick(elapsed);
    coin.lifetime.finished()
}

/// The type of coin that the percentage `kind` stands for.
pub open spec fn coin_type(kind: u32) -> PowerUpType {
    if kind < GROW_CHANCE {
        PowerUpType::Grow
    } else {
        PowerUpType::Shrink
    }
}

/// The spawn timer and the coin to appear, after one frame.
///
/// A missing timer is set up with the first delay.  The timer advances.
/// Once it has run out and fewer than `MAX_COINS` coins lie around, a coin
/// of the drawn type appears at the drawn place, and the timer is set up
/// anew with the next delay.
pub open spec fn spec_spawn_coin(timer: Option<Timer>, existing: usize, elapsed: u32, draws: SpawnDraws) -> (Option<Timer>, Option<CoinSpawn>) {
    let running = match timer {
        Some(t) => t,
        None => Timer::fresh(draws.first_delay, TimerMode::Once),
    };
    let ticked = running.ticked(elapsed);
    if ticked.finished && existing < MAX_COINS {
        (
            Some(Timer::fresh(draws.next_delay, TimerMode::Once)),
            Some(
                CoinSpawn {
                    coin: PowerUpCoin {
                        power_type: coin_type(draws.kind),
                        lifetime: Timer::fresh(COIN_LIFETIME, TimerMode::Once),
                    },
                    position: Vec3 { x: draws.x, y: COIN_HEIGHT, z: draws.z },
                },
            ),
        )
    } else {
        (Some(ticked), None)
    }
}

/// One frame of the appearing of coins, on given draws: see
/// `spec_spawn_coin`.
pub fn spawn_random_powerup_coin_on_draws(
    spawn_timer: &mut Option<Timer>,
    existing: usize,
    elapsed: u32,
    draws: &SpawnDraws,
) -> (spawn: Option<CoinSpawn>)
    ensures
        (*final(spawn_timer), spawn) == spec_spawn_coin(*old(spawn_timer), existing, elapsed, *draws),
        (*final(spawn_timer)) is Some,
        existing >= MAX_COINS ==> spawn is None,
{
    let mut timer = match *spawn_timer {
        Some(t) => t,
        None => Timer::new(draws.first_delay, TimerMode::Once),
    };
    timer.tick(elapsed);
    if timer.finished() && existing < MAX_COINS {
        let power_type = if draws.kind < GROW_CHANCE { PowerUpType::Grow } else { PowerUpType::Shrink };
        *spawn_timer = Some(Timer::new(draws.next_delay, TimerMode::Once));
        Some(
            CoinSpawn {
                coin: PowerUpCoin { power_type, lifetime: Timer::new(COIN_LIFETIME, TimerMode::Once) },
                position: Vec3 { x: draws.x, y: COIN_HEIGHT, z: draws.z },
            },
        )
    } else {
        *spawn_timer = Some(timer);
        None
    }
}

/// One frame of the appearing of coins, with the draws taken from `rng`.
/// Whatever is drawn, the outcome is that of `spec_spawn_coin` on draws in
/// range.
pub fn spawn_random_powerup_coin(
    spawn_timer: &mut Option<Timer>,
    existing: usize,
    elapsed: u32,
    rng: &mut StdRng,
) -> (spawn: Option<CoinSpawn>)
    ensures
        exists|draws: SpawnDraws|
            draws.in_range() && (*final(spawn_timer), spawn) == #[trigger] spec_spawn_coin(
                *old(spawn_timer),
                existing,
                elapsed,
                draws,
            ),
        (*final(spawn_timer)) is Some,
        existing >= MAX_COINS ==> spawn is None,
{
    let draws = SpawnDraws {
        first_delay: draw_in_range(rng, 2_000_000, 6_000_001) as u32,
        kind: draw_percent(rng),
        x: draw_in_range(rng, -COIN_RANGE, COIN_RANGE),
        z: draw_in_range(rng, -COIN_RANGE, COIN_RANGE),
        next_delay: draw_in_range(rng, 4_000_000, 8_000_001) as u32,
    };
    spawn_random_powerup_coin_on_draws(spawn_timer, existing, elapsed, &draws)
}

/// What a frame's contacts come to: the coins to take away, in the order
/// of the contacts, and the power-up that the player has picked up.
#[derive(Debug)]
pub struct Collected {
    pub despawn: Vec<u64>,
    pub power_up: Option<PowerUpType>,
}

/// The first of `coins` with the id `id`.
pub open spec fn find_coin(coins: Seq<CoinRef>, id: u64) -> Option<CoinRef>
    decreases coins.len(),
{
    if coins.len() == 0 {
        None
    } else {
        match find_coin(coins.drop_last(), id) {
            Some(coin) => Some(coin),
            None => if coins.last().id == id {
                Some(coins.last())
            } else {
                None
            },
        }
    }
}

/// The coin in a contact: the first party if that is a coin, else the
/// second if that is one.
pub open spec fn touched_coin(contact: Contact, coins: Seq<CoinRef>) -> Option<CoinRef> {
    match find_coin(coins, contact.first) {
        Some(coin) => Some(coin),
        None => find_coin(coins, contact.second),
    }
}

/// Who touched `coin` in the contact.
pub open spec fn other_party(contact: Contact, coin: CoinRef) -> u64 {
    if coin.id == contact.first {
        contact.second
    } else {
        contact.first
    }
}

/// The coin that a contact takes away: one touched by the player or by an
/// enemy.
pub open spec fn taken_coin(contact: Contact, coins: Seq<CoinRef>, player: Option<u64>, enemies: Seq<u64>) -> Option<CoinRef> {
    match touched_coin(contact, coins) {
        Some(coin) => if enemies.contains(other_party(contact, coin)) || player == Some(
            other_party(contact, coin),
        ) {
            Some(coin)
        } else {
            None
        },
        None => None,
    }
}

/// The ids of the coins that the contacts take away, one for each contact
/// that takes one, in their order.
pub open spec fn spec_collected_coins(contacts: Seq<Contact>, coins: Seq<CoinRef>, player: Option<u64>, enemies: Seq<u64>) -> Seq<u64>
    decreases contacts.len(),
{
    if contacts.len() == 0 {
        Seq::empty()
    } else {
        let before = spec_collected_coins(contacts.drop_last(), coins, player, enemies);
        match taken_coin(contacts.last(), coins, player, enemies) {
            Some(coin) => before.push(coin.id),
            None => before,
        }
    }
}

/// The power-up that the player picks up: that of the last coin it took.
/// A coin taken by an enemy gives nothing.
pub open spec fn spec_collected_power(contacts: Seq<Contact>, coins: Seq<CoinRef>, player: Option<u64>, enemies: Seq<u64>) -> Option<PowerUpType>
    decreases contacts.len(),
{
    if contacts.len() == 0 {
        None
    } else {
        match taken_coin(contacts.last(), coins, player, enemies) {
            Some(coin) => if player == Some(other_party(contacts.last(), coin)) {
                Some(coin.power_type)
            } else {
                spec_collected_power(contacts.drop_last(), coins, player, enemies)
            },
            None => spec_collected_power(contacts.drop_last(), coins, player, enemies),
        }
    }
}

/// The first of `coins` with the id `id`.
pub fn coin_with_id(coins: &Vec<CoinRef>, id: u64) -> (found: Option<CoinRef>)
    ensures
        found == find_coin(coins@, id),
{
    let mut found: Option<CoinRef> = None;
    let mut i: usize = 0;
    while i < coins.len()
        invariant
            i <= coins.len(),
            found == find_coin(coins@.take(i as int), id),
        decreases coins.len() - i,
    {
        proof {
            assert(coins@.take(i + 1).drop_last() =~= coins@.take(i as int));
        }
        if found.is_none() && coins[i].id == id {
            found = Some(coins[i]);
        }
        i += 1;
    }
    proof {
        assert(coins@.take(i as int) =~= coins@);
    }
    found
}

/// Whether `id` is among `ids`.
pub fn contains_id(ids: &Vec<u64>, id: u64) -> (found: bool)
    ensures
        found == ids@.contains(id),
{
    let mut i: usize = 0;
    while i < ids.len()
        invariant
            i <= ids.len(),
            forall|j: int| 0 <= j < i ==> ids[j] != id,
        decreases ids.len() - i,
    {
        if ids[i] == id {
            return true;
        }
        i += 1;
    }
    false
}

/// What a frame's contacts come to: see `spec_collected_coins` and
/// `spec_collected_power`.
pub fn collect_powerup_coin(
    contacts: &Vec<Contact>,
    coins: &Vec<CoinRef>,
    player: Option<u64>,
    enemies: &Vec<u64>,
) -> (collected: Collected)
    ensures
        collected.despawn@ == spec_collected_coins(contacts@, coins@, player, enemies@),
        collected.power_up == spec_collected_power(contacts@, coins@, player, enemies@),
{
    let mut despawn: Vec<u64> = Vec::new();
    let mut power_up: Option<PowerUpType> = None;
    let mut i: usize = 0;
    while i < contacts.len()
        invariant
            i <= contacts.len(),
            despawn@ == spec_collected_coins(contacts@.take(i as int), coins@, player, enemies@),
            power_up == spec_collected_power(contacts@.take(i as int), coins@, player, enemies@),
        decreases contacts.len() - i,
    {
        proof {
            assert(contacts@.take(i + 1).drop_last() =~= contacts@.take(i as int));
        }
        let contact = contacts[i];
        let touched = match coin_with_id(coins, contact.first) {
            Some(coin) => Some(coin),
            None => coin_with_id(coins, contact.second),
        };
        if let Some(coin) = touched {
            let other = if coin.id == contact.first { contact.second } else { contact.first };
            let by_player = match player {
                Some(id) => id == other,
                None => false,
            };
            if by_player || contains_id(enemies, other) {
                despawn.push(coin.id);
                if by_player {
                    power_up = Some(coin.power_type);
                }
            }
        }
        i += 1;
    }
    proof {
        assert(contacts@.take(i as int) =~= contacts@);
    }
    Collected { despawn, power_up }
}

} // verus!
