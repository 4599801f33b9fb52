//! The pet's portraits, one for each way it can look.

use vstd::prelude::*;
use crate::state::Status;

verus! {

/// A dead pet.
pub const ART_DEAD: &'static str = "\n   (X_X)\n  /|   |\\  R.I.P.\n";

/// A sick pet.
pub const ART_SICK: &'static str = "\n   (x_x)\n  /|   |\\  I don't feel so good...\n";

/// A sad pet.
pub const ART_SAD: &'static str = "\n   (T_T)\n  /|   |\\  Feed me code...\n";

/// A bloated pet.
pub const ART_BLOATED: &'static str = "\n   (O_O)\n  /<   >\\  Too much code...\n";

/// A happy pet of level 1: still an egg.
pub const ART_EGG: &'static str = "\n  .---.\n /     \\\n |  ?  |\n \\     /\n  '---'\n";

/// A happy pet below level 5.
pub const ART_YOUNG: &'static str = "\n   (o_o)\n  /|   |\\\n";

/// A happy pet of level 5 or more.
pub const ART_MASTER: &'static str = "\n   [^_^]\n  /|   |\\  MASTER CODER\n";

/// A pet in a mood that has no portrait.
pub const ART_UNKNOWN: &'static str = "???";

/// The portrait of a pet in mood `status` at level `level`.
///
/// The dead, the sick, the sad and the bloated look the same at every level. A
/// happy pet is an egg at level 1, a master from level 5 on, and young at any
/// other level. A hungry pet has no portrait of its own.
pub open spec fn portrait(status: Status, level: nat) -> Seq<char> {
    match status {
        Status::DEAD => ART_DEAD@,
        Status::SICK => ART_SICK@,
        Status::SAD => ART_SAD@,
        Status::BLOATED => ART_BLOATED@,
        Status::HAPPY => if level == 1 {
            ART_EGG@
        } else if level < 5 {
            ART_YOUNG@
        } else {
            ART_MASTER@
        },
        Status::HUNGRY => ART_UNKNOWN@,
    }
}

} // verus!
