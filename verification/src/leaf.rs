//! The player's leaf: how many gusts of wind it has left, when a gust
//! fires, and the text that shows the count.

use vstd::prelude::*;
use vstd::string::StringExecFns;

verus! {

/// Gusts a leaf has when it enters the world.
pub const STARTING_GUSTS: u32 = 1000;

/// The leaf the player blows through the world.
#[derive(Debug, Clone, Copy, PartialEq, Eq, Structural)]
pub struct PlayerLeaf {
    /// Gusts of wind the player may still spend on this leaf.
    pub gusts_left: u32,
}

impl PlayerLeaf {
    /// The leaf as it enters the world, with its full supply of gusts.
    pub open spec fn fresh() -> PlayerLeaf {
        PlayerLeaf { gusts_left: STARTING_GUSTS }
    }

    /// A leaf with its full supply of gusts.
    pub fn new() -> (leaf: PlayerLeaf)
        ensures
            leaf == Self::fresh(),
    {
        PlayerLeaf { gusts_left: STARTING_GUSTS }
    }
}

/// Whether a click blows a gust at a leaf with `gusts_left` gusts: the left
/// button has just gone down, a gust is left to spend, and the cursor is
/// inside the window, so that there is a point to blow from.
pub open spec fn gust_fires(gusts_left: u32, left_just_pressed: bool, cursor_in_window: bool) -> bool {
    left_just_pressed && gusts_left > 0 && cursor_in_window
}

/// Decides whether this frame's click blows a gust at the leaf, and spends
/// the gust if it does.
///
/// Returns whether the gust fired; the caller then pushes the leaf away
/// from the cursor. A click that fires no gust leaves the leaf untouched.
pub fn wind_blow(leaf: &mut PlayerLeaf, left_just_pressed: bool, cursor_in_window: bool) -> (fired: bool)
    ensures
        fired == gust_fires(old(leaf).gusts_left, left_just_pressed, cursor_in_window),
        fired ==> final(leaf).gusts_left == old(leaf).gusts_left - 1,
        !fired ==> *final(leaf) == *old(leaf),
{
    if left_just_pressed && leaf.gusts_left > 0 && cursor_in_window {
        leaf.gusts_left = leaf.gusts_left - 1;
        true
    } else {
        false
    }
}

/// The character that writes the digit `d`.
pub open spec fn digit_char(d: nat) -> char
    recommends
        d < 10,
{
    if d == 0 {
        '0'
    } else if d == 1 {
        '1'
    } else if d == 2 {
        '2'
    } else if d == 3 {
        '3'
    } else if d == 4 {
        '4'
    } else if d == 5 {
        '5'
    } else if d == 6 {
        '6'
    } else if d == 7 {
        '7'
    } else if d == 8 {
        '8'
    } else {
        '9'
    }
}

/// The number `n` written in base ten, most significant digit first and
/// with no leading zero (zero itself is written `0`).
pub open spec fn decimal(n: nat) -> Seq<char>
    decreases n,
{
    if n < 10 {
        seq![digit_char(n)]
    } else {
        decimal(n / 10).push(digit_char(n % 10))
    }
}

/// The text of the gust counter for a leaf with `gusts_left` gusts.
pub open spec fn gust_label(gusts_left: nat) -> Seq<char> {
    decimal(gusts_left) + " Blows Left"@
}

/// The one-character string that writes the digit `d`.
fn digit_str(d: u32) -> (s: &'static str)
    requires
        d < 10,
    ensures
        s@ == seq![digit_char(d as nat)],
{
    proof {
        reveal_strlit("0");
        reveal_strlit("1");
        reveal_strlit("2");
        reveal_strlit("3");
        reveal_strlit("4");
        reveal_strlit("5");
        reveal_strlit("6");
        reveal_strlit("7");
        reveal_strlit("8");
        reveal_strlit("9");
    }
    let s = match d {
        0 => "0",
        1 => "1",
        2 => "2",
        3 => "3",
        4 => "4",
        5 => "5",
        6 => "6",
        7 => "7",
        8 => "8",
        _ => "9",
    };
    assert(s@ =~= seq![digit_char(d as nat)]);
    s
}

/// Appends `n`, written in base ten, to `text`.
fn push_decimal(text: &mut String, n: u32)
    ensures
        final(text)@ == old(text)@ + decimal(n as nat),
    decreases n,
{
    if n >= 10 {
        push_decimal(text, n / 10);
    }
    text.append(digit_str(n % 10));
    assert(text@ =~= old(text)@ + decimal(n as nat));
}

/// Writes the gust counter for the leaf: the number of gusts it has left,
/// followed by the words ` Blows Left`.
pub fn leaf_blow_updater(leaf: &PlayerLeaf) -> (text: String)
    ensures
        text@ == gust_label(leaf.gusts_left as nat),
{
    let mut text = String::new();
    push_decimal(&mut text, leaf.gusts_left);
    text.append(" Blows Left");
    text
}

} // verus!
