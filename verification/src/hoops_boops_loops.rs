//! The core of each loop: its planet, its boops and hoops, and the loot that a boop earns when
//! it enters a hoop.

use crate::loot::Loot;
use crate::number_text::{append_decimal, decimal};
use crate::prices::PLANET_PRICES;
use bevy::prelude::Entity;
use vstd::prelude::*;
use vstd::string::StringExecFns;

verus! {

/// The most hoops that a loop can have.
pub const MAX_HOOPS: i32 = 8;

/// The most boops that a loop can have.
pub const MAX_BOOPS: usize = 16;

/// The places of the hoops around the center of a loop, counterclockwise from the top left.
pub const HOOP_POSITIONS: [(i32, i32); 8] = [
    (-95, 222),
    (-225, 91),
    (-222, -93),
    (-98, -223),
    (95, -226),
    (221, -96),
    (223, 92),
    (98, 219),
];

/// How far from the place of a hoop a boop still counts as inside it.
pub const ON_HOOP_TOLERANCE: i32 = 20;

/// The planets, one for each loop. Hoops are colored for their planet.
#[derive(Clone, Copy, Debug, PartialEq, Eq, Structural)]
pub enum Planet {
    One,
    Two,
    Three,
    Four,
    Five,
    Six,
}

impl Planet {
    /// The planet's number, from 1 to 6.
    pub open spec fn number(self) -> int {
        match self {
            Planet::One => 1,
            Planet::Two => 2,
            Planet::Three => 3,
            Planet::Four => 4,
            Planet::Five => 5,
            Planet::Six => 6,
        }
    }

    /// The planet's price in loot.
    pub open spec fn price(self) -> int {
        PLANET_PRICES@[self.number() - 1] as int
    }

    /// The planet with number `i`. There are only six planets.
    pub fn from_i32(i: i32) -> (planet: Planet)
        requires
            1 <= i <= 6,
        ensures
            planet.number() == i,
    {
        if i == 1 {
            Planet::One
        } else if i == 2 {
            Planet::Two
        } else if i == 3 {
            Planet::Three
        } else if i == 4 {
            Planet::Four
        } else if i == 5 {
            Planet::Five
        } else {
            Planet::Six
        }
    }

    /// The planet's number as text.
    pub fn get_number(&self) -> (text: String)
        ensures
            text@ == decimal(self.number()),
    {
        let text = match self {
            Planet::One => {
                proof { reveal_strlit("1"); }
                String::from_str("1")
            },
            Planet::Two => {
                proof { reveal_strlit("2"); }
                String::from_str("2")
            },
            Planet::Three => {
                proof { reveal_strlit("3"); }
                String::from_str("3")
            },
            Planet::Four => {
                proof { reveal_strlit("4"); }
                String::from_str("4")
            },
            Planet::Five => {
                proof { reveal_strlit("5"); }
                String::from_str("5")
            },
            Planet::Six => {
                proof { reveal_strlit("6"); }
                String::from_str("6")
            },
        };
        assert(text@ =~= decimal(self.number()));
        text
    }

    /// The path of the planet's sprite.
    pub fn get_sprite_path(&self) -> (path: String)
        ensures
            path@ == "loops/"@ + decimal(self.number()) + ".png"@,
    {
        let mut path = String::from_str("loops/");
        path.append(self.get_number().as_str());
        path.append(".png");
        path
    }

    /// The path of the inner half of the planet's hoop number `count`.
    pub fn get_inner_hoop_path(&self, count: i32) -> (path: String)
        ensures
            path@ == "hoops/loop-"@ + decimal(self.number()) + "/inner-half-"@ + decimal(
                count as int,
            ) + ".png"@,
    {
        let mut path = String::from_str("hoops/loop-");
        path.append(self.get_number().as_str());
        path.append("/inner-half-");
        append_decimal(&mut path, count);
        path.append(".png");
        path
    }

    /// The path of the outer half of the planet's hoop number `count`.
    pub fn get_outer_hoop_path(&self, count: i32) -> (path: String)
        ensures
            path@ == "hoops/loop-"@ + decimal(self.number()) + "/outer-half-"@ + decimal(
                count as int,
            ) + ".png"@,
    {
        let mut path = String::from_str("hoops/loop-");
        path.append(self.get_number().as_str());
        path.append("/outer-half-");
        append_decimal(&mut path, count);
        path.append(".png");
        path
    }

    /// The path of the picture on the planet's button for buying hoops.
    pub fn get_hoop_showcase_path(&self) -> (path: String)
        ensures
            path@ == "buy-hoop-showcase/"@ + decimal(self.number()) + ".png"@,
    {
        let mut path = String::from_str("buy-hoop-showcase/");
        path.append(self.get_number().as_str());
        path.append(".png");
        path
    }

    /// The planet's price in loot.
    pub fn get_price(&self) -> (price: i32)
        ensures
            price == self.price(),
    {
        match self {
            Planet::One => PLANET_PRICES[0],
            Planet::Two => PLANET_PRICES[1],
            Planet::Three => PLANET_PRICES[2],
            Planet::Four => PLANET_PRICES[3],
            Planet::Five => PLANET_PRICES[4],
            Planet::Six => PLANET_PRICES[5],
        }
    }
}

/// A token that orbits a loop. It remembers whether it was inside a hoop when last looked at,
/// so that one passage through a hoop is rewarded once.
#[derive(Clone, Copy, Debug)]
pub struct Boop {
    in_hoop: bool,
}

impl View for Boop {
    type V = bool;

    /// Whether the boop was inside a hoop when last looked at.
    closed spec fn view(&self) -> bool {
        self.in_hoop
    }
}

impl Default for Boop {
    /// A boop outside every hoop.
    fn default() -> (boop: Boop)
        ensures
            !boop@,
    {
        Boop { in_hoop: false }
    }
}

impl Boop {
    /// Whether the boop was inside a hoop when last looked at.
    pub fn in_hoop(&self) -> (inside: bool)
        ensures
            inside == self@,
    {
        self.in_hoop
    }
}

/// The first of the first `hoop_count` hoops that the boop overlaps, where `overlaps[i]` says
/// whether it overlaps hoop `i`.
pub open spec fn first_overlap(overlaps: Seq<bool>, hoop_count: int) -> Option<int>
    decreases hoop_count,
{
    if hoop_count <= 0 {
        None
    } else {
        match first_overlap(overlaps, hoop_count - 1) {
            Some(i) => Some(i),
            None => if overlaps[hoop_count - 1] {
                Some(hoop_count - 1)
            } else {
                None
            },
        }
    }
}

/// The loot that one look at a boop earns: one piece when it is inside a hoop now and was not
/// when last looked at.
pub open spec fn gain_of_look(was_inside: bool, inside: bool) -> int {
    if inside && !was_inside {
        1
    } else {
        0
    }
}

/// The loot that a boop earns over a run of looks, where `was_inside` says whether it was
/// inside a hoop before the run and `inside[i]` whether it is at look `i`.
pub open spec fn gain_of_looks(was_inside: bool, inside: Seq<bool>) -> int
    decreases inside.len(),
{
    if inside.len() == 0 {
        0
    } else {
        gain_of_look(was_inside, inside.first()) + gain_of_looks(
            inside.first(),
            inside.drop_first(),
        )
    }
}

/// A loop: a planet with the boops that orbit it and the hoops that they pass through.
pub struct Loop {
    boops: Vec<Entity>,
    /// Of each hoop the outer half, then the inner half.
    hoop_sprites: Vec<(Entity, Entity)>,
    planet: Planet,
}

impl Loop {
    /// The boops of the loop, oldest first.
    pub closed spec fn boops(&self) -> Seq<Entity> {
        self.boops@
    }

    /// The number of hoops of the loop.
    pub closed spec fn hoop_count(&self) -> int {
        self.hoop_sprites@.len() as int
    }

    /// The two sprites of each hoop, oldest hoop first: its outer half, then its inner half.
    pub closed spec fn hoop_sprites(&self) -> Seq<(Entity, Entity)> {
        self.hoop_sprites@
    }

    /// The planet of the loop.
    pub closed spec fn planet(&self) -> Planet {
        self.planet
    }

    /// The loop's invariant: each hoop has its sprites, and neither hoops nor boops exceed
    /// their maximum.
    #[verifier::type_invariant]
    pub open spec fn wf(&self) -> bool {
        &&& 0 <= self.hoop_count() <= MAX_HOOPS
        &&& self.hoop_sprites().len() == self.hoop_count()
        &&& self.boops().len() <= MAX_BOOPS
    }

    /// A loop around `planet` without boops and hoops.
    pub fn new(planet: Planet) -> (new_loop: Loop)
        ensures
            new_loop.planet() == planet,
            new_loop.hoop_count() == 0,
            new_loop.boops().len() == 0,
    {
        Loop { boops: Vec::new(), hoop_sprites: Vec::new(), planet }
    }

    /// The planet of the loop.
    pub fn get_planet(&self) -> (planet: Planet)
        ensures
            planet == self.planet(),
    {
        self.planet
    }

    /// The number of hoops of the loop.
    pub fn get_hoop_count(&self) -> (count: i32)
        ensures
            count == self.hoop_count(),
            0 <= count <= MAX_HOOPS,
    {
        proof {
            use_type_invariant(self);
        }
        self.hoop_sprites.len() as i32
    }

    /// The boops of the loop, oldest first.
    pub fn get_boops(&self) -> (boops: &Vec<Entity>)
        ensures
            boops@ == self.boops(),
    {
        &self.boops
    }

    /// The two sprites of each hoop, oldest hoop first: its outer half, then its inner half.
    pub fn get_hoop_sprites(&self) -> (sprites: &Vec<(Entity, Entity)>)
        ensures
            sprites@ == self.hoop_sprites(),
    {
        &self.hoop_sprites
    }

    /// Whether the loop can take one more hoop.
    pub fn has_room_for_hoop(&self) -> (room: bool)
        ensures
            room == (self.hoop_count() < MAX_HOOPS),
    {
        self.get_hoop_count() < MAX_HOOPS
    }

    /// Whether the loop can take one more boop.
    pub fn has_room_for_boop(&self) -> (room: bool)
        ensures
            room == (self.boops().len() < MAX_BOOPS),
    {
        self.boops.len() < MAX_BOOPS
    }

    /// The paths of the pictures of the hoop that comes next: its outer half, then its inner
    /// half.
    pub fn next_hoop_paths(&self) -> (paths: (String, String))
        ensures
            paths.0@ == "hoops/loop-"@ + decimal(self.planet().number()) + "/outer-half-"@
                + decimal(self.hoop_count() + 1) + ".png"@,
            paths.1@ == "hoops/loop-"@ + decimal(self.planet().number()) + "/inner-half-"@
                + decimal(self.hoop_count() + 1) + ".png"@,
    {
        let count = self.get_hoop_count() + 1;
        (self.planet.get_outer_hoop_path(count), self.planet.get_inner_hoop_path(count))
    }

    /// Adds a hoop with the sprites `outer` and `inner` to a loop that has room for one, and
    /// tells whether the loop now has all its hoops.
    pub fn add_hoop(&mut self, outer: Entity, inner: Entity) -> (all_hoops_bought: bool)
        requires
            old(self).hoop_count() < MAX_HOOPS,
        ensures
            final(self).hoop_count() == old(self).hoop_count() + 1,
            final(self).hoop_sprites() == old(self).hoop_sprites().push((outer, inner)),
            final(self).boops() == old(self).boops(),
            final(self).planet() == old(self).planet(),
            all_hoops_bought == (final(self).hoop_count() == MAX_HOOPS),
    {
        proof {
            use_type_invariant(&*self);
        }
        let mut hoop_sprites = Vec::new();
        std::mem::swap(&mut hoop_sprites, &mut self.hoop_sprites);
        hoop_sprites.push((outer, inner));
        self.hoop_sprites = hoop_sprites;
        self.get_hoop_count() == MAX_HOOPS
    }

    /// Adds the boop `boop` to a loop that has room for one.
    pub fn add_boop(&mut self, boop: Entity)
        requires
            old(self).boops().len() < MAX_BOOPS,
        ensures
            final(self).boops() == old(self).boops().push(boop),
            final(self).hoop_count() == old(self).hoop_count(),
            final(self).hoop_sprites() == old(self).hoop_sprites(),
            final(self).planet() == old(self).planet(),
    {
        proof {
            use_type_invariant(&*self);
        }
        let mut boops = Vec::new();
        std::mem::swap(&mut boops, &mut self.boops);
        boops.push(boop);
        self.boops = boops;
    }

    /// The first hoop of the loop that a boop overlaps, where `overlaps[i]` says whether it
    /// overlaps the place of hoop `i`. Places of hoops that the loop does not have yet do not
    /// count.
    pub fn first_hoop_entered(&self, overlaps: &[bool; 8]) -> (hoop: Option<i32>)
        ensures
            match hoop {
                Some(i) => {
                    &&& 0 <= i < self.hoop_count()
                    &&& overlaps@[i as int]
                    &&& forall|j: int| 0 <= j < i ==> !overlaps@[j]
                },
                None => forall|j: int| 0 <= j < self.hoop_count() ==> !overlaps@[j],
            },
            hoop.is_some() == first_overlap(overlaps@, self.hoop_count()).is_some(),
            hoop matches Some(i) ==> first_overlap(overlaps@, self.hoop_count()) == Some(
                i as int,
            ),
    {
        let hoop_count = self.get_hoop_count();
        let mut i: i32 = 0;
        while i < hoop_count
            invariant
                hoop_count == self.hoop_count(),
                0 <= i <= hoop_count <= MAX_HOOPS,
                first_overlap(overlaps@, i as int).is_none(),
                forall|j: int| 0 <= j < i ==> !overlaps@[j],
            decreases self.hoop_count() - i,
        {
            if overlaps[i as usize] {
                proof {
                    lemma_first_overlap_stays(overlaps@, i as int + 1, self.hoop_count());
                }
                return Some(i);
            }
            i = i + 1;
        }
        None
    }

    /// Looks at one boop of the loop. A boop that is inside a hoop now and was not when last
    /// looked at earns one piece of loot, and the sprites of that hoop are returned to be
    /// lit up. The boop remembers whether it is inside a hoop now.
    pub fn get_loot_on_boop_in_hoop(
        &self,
        boop: &mut Boop,
        overlaps: &[bool; 8],
        loot: &mut Loot,
    ) -> (lit: Option<(Entity, Entity)>)
        requires
            first_overlap(overlaps@, self.hoop_count()).is_some() && !old(boop)@ ==> old(loot)@
                < i32::MAX,
        ensures
            final(boop)@ == first_overlap(overlaps@, self.hoop_count()).is_some(),
            final(loot)@ == old(loot)@ + gain_of_look(old(boop)@, final(boop)@),
            lit == if final(boop)@ && !old(boop)@ {
                Some(self.hoop_sprites()[first_overlap(overlaps@, self.hoop_count()).unwrap()])
            } else {
                None
            },
    {
        match self.first_hoop_entered(overlaps) {
            Some(i) => {
                if !boop.in_hoop {
                    loot.earn();
                    boop.in_hoop = true;
                    Some(self.hoop_sprites[i as usize])
                } else {
                    None
                }
            },
            None => {
                boop.in_hoop = false;
                None
            },
        }
    }
}

/// A hoop that is found among the first `n` hoops is found among the first `m` too, for
/// `m` from `n` upwards.
proof fn lemma_first_overlap_stays(overlaps: Seq<bool>, n: int, m: int)
    requires
        n <= m,
        first_overlap(overlaps, n).is_some(),
    ensures
        first_overlap(overlaps, m) == first_overlap(overlaps, n),
    decreases m - n,
{
    if n < m {
        lemma_first_overlap_stays(overlaps, n, m - 1);
    }
}

/// Whether the boop is inside a hoop after a run of looks: as the last look found it, or as
/// it was before a run without looks.
pub open spec fn inside_after_looks(was_inside: bool, inside: Seq<bool>) -> bool {
    if inside.len() == 0 {
        was_inside
    } else {
        inside.last()
    }
}

/// The loot of a run of looks is the loot of its first part and the loot of the rest, which
/// starts where the first part ended.
pub proof fn lemma_gain_of_looks_splits(was_inside: bool, head: Seq<bool>, tail: Seq<bool>)
    ensures
        gain_of_looks(was_inside, head + tail) == gain_of_looks(was_inside, head) + gain_of_looks(
            inside_after_looks(was_inside, head),
            tail,
        ),
    decreases head.len(),
{
    if head.len() == 0 {
        assert(head + tail =~= tail);
    } else {
        assert((head + tail).first() == head.first());
        assert((head + tail).drop_first() =~= head.drop_first() + tail);
        lemma_gain_of_looks_splits(head.first(), head.drop_first(), tail);
        if head.len() > 1 {
            assert(head.drop_first().last() == head.last());
        }
    }
}

/// A boop that is inside a hoop and stays there earns nothing, however often it is looked at.
pub proof fn lemma_staying_inside_earns_nothing(inside: Seq<bool>)
    requires
        forall|i: int| 0 <= i < inside.len() ==> inside[i],
    ensures
        gain_of_looks(true, inside) == 0,
    decreases inside.len(),
{
    if inside.len() > 0 {
        lemma_staying_inside_earns_nothing(inside.drop_first());
    }
}

/// A boop that is outside every hoop and stays there earns nothing.
pub proof fn lemma_staying_outside_earns_nothing(was_inside: bool, inside: Seq<bool>)
    requires
        forall|i: int| 0 <= i < inside.len() ==> !inside[i],
    ensures
        gain_of_looks(was_inside, inside) == 0,
    decreases inside.len(),
{
    if inside.len() > 0 {
        lemma_staying_outside_earns_nothing(inside.first(), inside.drop_first());
    }
}

/// A boop that enters a hoop earns exactly one piece of loot, for however many looks it stays
/// inside.
pub proof fn lemma_entering_earns_once(inside: Seq<bool>)
    requires
        inside.len() > 0,
        forall|i: int| 0 <= i < inside.len() ==> inside[i],
    ensures
        gain_of_looks(false, inside) == 1,
{
    lemma_staying_inside_earns_nothing(inside.drop_first());
}

/// A boop that enters a hoop, leaves it and enters again earns exactly two pieces of loot, for
/// however many looks each stay and the time between them last.
pub proof fn lemma_entering_again_earns_again(
    first_stay: Seq<bool>,
    between: Seq<bool>,
    second_stay: Seq<bool>,
)
    requires
        first_stay.len() > 0,
        between.len() > 0,
        second_stay.len() > 0,
        forall|i: int| 0 <= i < first_stay.len() ==> first_stay[i],
        forall|i: int| 0 <= i < between.len() ==> !between[i],
        forall|i: int| 0 <= i < second_stay.len() ==> second_stay[i],
    ensures
        gain_of_looks(false, first_stay + between + second_stay) == 2,
{
    lemma_gain_of_looks_splits(false, first_stay + between, second_stay);
    lemma_gain_of_looks_splits(false, first_stay, between);
    lemma_entering_earns_once(first_stay);
    lemma_staying_outside_earns_nothing(true, between);
    lemma_entering_earns_once(second_stay);
    assert((first_stay + between).last() == between.last());
}

} // verus!
