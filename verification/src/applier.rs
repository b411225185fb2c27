//! Argument formatting for whichever backend was selected. The on-screen
//! display client takes a raise/lower verb and a step magnitude; the
//! direct controller takes one signed percentage string whose shape
//! depends on the direction and, for decreases, on the current level.

use vstd::prelude::*;

use crate::Direction;
use crate::numeric::{dec_str, u32_to_dec};

verus! {

/// The verb the on-screen display client takes for a direction.
pub open spec fn spec_osd_verb(direction: Direction) -> Seq<char> {
    match direction {
        Direction::Increase => "raise"@,
        Direction::Decrease => "lower"@,
    }
}

/// The full argument list for the on-screen display client: its
/// brightness mode, the verb for the direction, and the effective step
/// magnitude. The current level is not consulted on this path.
pub fn osd_args(direction: Direction, step: u32) -> (args: Vec<String>)
    ensures
        args@.len() == 3,
        args@[0]@ == "--brightness"@,
        args@[1]@ == spec_osd_verb(direction),
        args@[2]@ == dec_str(step as nat),
{
    let verb = match direction {
        Direction::Increase => "raise",
        Direction::Decrease => "lower",
    };
    let mut args: Vec<String> = Vec::new();
    args.push(String::from_str("--brightness"));
    args.push(String::from_str(verb));
    args.push(u32_to_dec(step));
    args
}

/// The set-mode argument for the direct controller: a relative increase;
/// at the very bottom of the range an absolute set, so a decrease cannot
/// push below the controller's own floor; elsewhere a relative decrease.
pub open spec fn spec_direct_arg(direction: Direction, step: u32, current: u32) -> Seq<char> {
    match direction {
        Direction::Increase => seq!['+'] + dec_str(step as nat) + seq!['%'],
        Direction::Decrease => if current <= 1 {
            dec_str(step as nat) + seq!['%']
        } else {
            dec_str(step as nat) + seq!['%', '-']
        },
    }
}

/// Formats the set-mode argument for the direct controller.
pub fn direct_arg(direction: Direction, step: u32, current: u32) -> (arg: String)
    ensures
        arg@ == spec_direct_arg(direction, step, current),
{
    proof {
        reveal_strlit("+");
        reveal_strlit("%");
        reveal_strlit("%-");
    }
    match direction {
        Direction::Increase => {
            let mut r = String::from_str("+");
            let digits = u32_to_dec(step);
            r.append(digits.as_str());
            r.append("%");
            proof {
                assert(r@ =~= spec_direct_arg(direction, step, current));
            }
            r
        },
        Direction::Decrease => {
            let mut r = u32_to_dec(step);
            if current <= 1 {
                r.append("%");
            } else {
                r.append("%-");
            }
            proof {
                assert(r@ =~= spec_direct_arg(direction, step, current));
            }
            r
        },
    }
}

} // verus!
