use vstd::prelude::*;
use crate::car::CAR_DEF_COUNT;
use crate::blaster::BLASTER_DEF_COUNT;

verus! {

/// The car models opponents drive, in turn.
pub open spec fn ai_car_options() -> Seq<usize> {
    seq![3, 5, 7, 8, 9, 10, 0, 1]
}

/// The blaster models opponents carry, in turn.
pub open spec fn ai_blaster_options() -> Seq<usize> {
    seq![1, 2, 3, 4, 5, 0]
}

/// The car and blaster of opponent number `i`: the models are handed out
/// in turn from two fixed lists, starting over when a list runs out.
pub fn ai_loadout(i: usize) -> (r: (usize, usize))
    ensures
        r.0 == ai_car_options()[i as int % 8],
        r.1 == ai_blaster_options()[i as int % 6],
        r.0 < CAR_DEF_COUNT,
        r.1 < BLASTER_DEF_COUNT,
{
    let car_options: Vec<usize> = vec![3, 5, 7, 8, 9, 10, 0, 1];
    let blaster_options: Vec<usize> = vec![1, 2, 3, 4, 5, 0];
    assert(car_options@ =~= ai_car_options());
    assert(blaster_options@ =~= ai_blaster_options());
    let car_index = car_options[i % car_options.len()];
    let blaster_index = blaster_options[i % blaster_options.len()];
    (car_index, blaster_index)
}

/// An opponent blows up when it falls off the world (height under -20),
/// or when its health is gone and it is not exploding yet.
pub fn should_explode(fell: bool, health: u8, exploding: bool) -> (b: bool)
    ensures
        b == (fell || (health == 0 && !exploding)),
{
    fell || (health == 0 && !exploding)
}

} // verus!
