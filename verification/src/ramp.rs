//! The ordered symbols that stand for brightness, from sparse to dense.

use vstd::prelude::*;

verus! {

/// The symbol ramp, from the blank (darkest) to `@` (densest).
pub const RAMP: &'static str =
    " `.-':_,^=;><+!rc*/z?sLTv)J7(|Fi{C}fI31tlu[neoZ5Yxjya]2ESwqkP6h9d4VpOGbUAKXHm8RD#$Bg0MNWQ%&@";

/// Number of symbols in the ramp.
pub const RAMP_LEN: usize = 92;

/// The ramp as a sequence of symbols.
pub open spec fn ramp() -> Seq<char> {
    RAMP@
}

/// The ramp holds exactly `RAMP_LEN` symbols, from the blank to `@`.
pub proof fn lemma_ramp_len()
    ensures
        ramp().len() == RAMP_LEN,
        ramp()[0] == ' ',
        ramp()[91] == '@',
{
    reveal_strlit(
        " `.-':_,^=;><+!rc*/z?sLTv)J7(|Fi{C}fI31tlu[neoZ5Yxjya]2ESwqkP6h9d4VpOGbUAKXHm8RD#$Bg0MNWQ%&@",
    );
}

/// No symbol stands at two positions of the ramp.
pub proof fn lemma_ramp_distinct(i: int, j: int)
    requires
        0 <= i < j < RAMP_LEN,
    ensures
        ramp()[i] != ramp()[j],
{
    reveal_strlit(
        " `.-':_,^=;><+!rc*/z?sLTv)J7(|Fi{C}fI31tlu[neoZ5Yxjya]2ESwqkP6h9d4VpOGbUAKXHm8RD#$Bg0MNWQ%&@",
    );
}

/// Every symbol of the ramp is a printable ASCII character.
pub proof fn lemma_ramp_printable(i: int)
    requires
        0 <= i < RAMP_LEN,
    ensures
        32 <= ramp()[i] as int <= 126,
{
    reveal_strlit(
        " `.-':_,^=;><+!rc*/z?sLTv)J7(|Fi{C}fI31tlu[neoZ5Yxjya]2ESwqkP6h9d4VpOGbUAKXHm8RD#$Bg0MNWQ%&@",
    );
}

/// The symbol at a position of the ramp.
pub fn ramp_symbol(index: u8) -> (symbol: char)
    requires
        index < RAMP_LEN,
    ensures
        symbol == ramp()[index as int],
{
    proof {
        lemma_ramp_len();
    }
    RAMP.get_char(index as usize)
}

} // verus!
