//! Level-state input flags and the keyboard mapping that maintains them.
//!
//! The host forwards every key-down and key-up event with the DOM key
//! name; the mapping below turns them into the four level-state booleans
//! the simulation reads each frame.

use vstd::prelude::*;
use crate::strutil::str_eq;

verus! {

/// True while the corresponding key is held down.
#[derive(PartialEq, Eq, Structural, Clone, Copy, Debug)]
pub struct KeyDown {
    pub left: bool,
    pub right: bool,
    pub shot: bool,
    pub pause: bool,
}

/// Keys that move the player left.
pub open spec fn is_left_key(k: Seq<char>) -> bool {
    k == "ArrowLeft"@ || k == "a"@
}

/// Keys that move the player right.
pub open spec fn is_right_key(k: Seq<char>) -> bool {
    k == "ArrowRight"@ || k == "d"@
}

/// Keys that fire the player's bullet.
pub open spec fn is_shot_key(k: Seq<char>) -> bool {
    k == "Space"@ || k == "Enter"@ || k == "z"@
}

/// Keys that pause the game.
pub open spec fn is_pause_key(k: Seq<char>) -> bool {
    k == "Escape"@
}

/// The recognized key names are pairwise distinct, so at most one input
/// flag matches any event.
proof fn lemma_key_names_distinct()
    ensures
        "ArrowLeft"@ != "ArrowRight"@,
        "ArrowLeft"@ != "a"@,
        "ArrowLeft"@ != "d"@,
        "ArrowLeft"@ != "Space"@,
        "ArrowLeft"@ != "Enter"@,
        "ArrowLeft"@ != "z"@,
        "ArrowLeft"@ != "Escape"@,
        "ArrowRight"@ != "a"@,
        "ArrowRight"@ != "d"@,
        "ArrowRight"@ != "Space"@,
        "ArrowRight"@ != "Enter"@,
        "ArrowRight"@ != "z"@,
        "ArrowRight"@ != "Escape"@,
        "a"@ != "d"@,
        "a"@ != "Space"@,
        "a"@ != "Enter"@,
        "a"@ != "z"@,
        "a"@ != "Escape"@,
        "d"@ != "Space"@,
        "d"@ != "Enter"@,
        "d"@ != "z"@,
        "d"@ != "Escape"@,
        "Space"@ != "Enter"@,
        "Space"@ != "z"@,
        "Space"@ != "Escape"@,
        "Enter"@ != "z"@,
        "Enter"@ != "Escape"@,
        "z"@ != "Escape"@,
{
    reveal_strlit("ArrowLeft");
    reveal_strlit("ArrowRight");
    reveal_strlit("a");
    reveal_strlit("d");
    reveal_strlit("Space");
    reveal_strlit("Enter");
    reveal_strlit("z");
    reveal_strlit("Escape");
    assert("ArrowLeft"@.len() == 9);
    assert("ArrowRight"@.len() == 10);
    assert("a"@.len() == 1);
    assert("d"@.len() == 1);
    assert("Space"@.len() == 5);
    assert("Enter"@.len() == 5);
    assert("z"@.len() == 1);
    assert("Escape"@.len() == 6);
    assert("a"@[0] == 'a' && "d"@[0] == 'd' && "z"@[0] == 'z');
    assert("Space"@[0] == 'S' && "Enter"@[0] == 'E');
}

/// Record a key-down event: the matching flag (if any) becomes true, all
/// other flags keep their value.
pub fn function_key_down(key: &str, input_data: &mut KeyDown)
    ensures
        final(input_data).left == (old(input_data).left || is_left_key(key@)),
        final(input_data).right == (old(input_data).right || is_right_key(key@)),
        final(input_data).shot == (old(input_data).shot || is_shot_key(key@)),
        final(input_data).pause == (old(input_data).pause || is_pause_key(key@)),
{
    proof {
        lemma_key_names_distinct();
    }
    if str_eq(key, "ArrowLeft") || str_eq(key, "a") {
        input_data.left = true;
    } else if str_eq(key, "ArrowRight") || str_eq(key, "d") {
        input_data.right = true;
    } else if str_eq(key, "Space") || str_eq(key, "Enter") || str_eq(key, "z") {
        input_data.shot = true;
    } else if str_eq(key, "Escape") {
        input_data.pause = true;
    }
}

/// Record a key-up event: the matching flag (if any) becomes false, all
/// other flags keep their value.
pub fn function_key_up(key: &str, input_data: &mut KeyDown)
    ensures
        final(input_data).left == (old(input_data).left && !is_left_key(key@)),
        final(input_data).right == (old(input_data).right && !is_right_key(key@)),
        final(input_data).shot == (old(input_data).shot && !is_shot_key(key@)),
        final(input_data).pause == (old(input_data).pause && !is_pause_key(key@)),
{
    proof {
        lemma_key_names_distinct();
    }
    if str_eq(key, "ArrowLeft") || str_eq(key, "a") {
        input_data.left = false;
    } else if str_eq(key, "ArrowRight") || str_eq(key, "d") {
        input_data.right = false;
    } else if str_eq(key, "Space") || str_eq(key, "Enter") || str_eq(key, "z") {
        input_data.shot = false;
    } else if str_eq(key, "Escape") {
        input_data.pause = false;
    }
}

} // verus!
