//! What a key press makes of a prompt and of a menu. The caller shows them
//! and reads the keys.

use vstd::prelude::*;

verus! {

/// The character that ends a prompt and chooses in a menu.
pub const ENTER: char = '\n';

/// The character that takes back the last character of a prompt.
pub const DELETE: char = '\x7f';

/// What the text of a prompt is after the user typed `chunk`, and whether
/// the prompt is over: a chunk that starts with `ENTER` ends the prompt, a
/// chunk that starts with `DELETE` takes the last character away, if there
/// is one, and any other chunk is added to the text.
pub open spec fn input_step_spec(data: Seq<char>, chunk: Seq<char>) -> (Seq<char>, bool) {
    if chunk.len() > 0 && chunk[0] == ENTER {
        (data, true)
    } else if chunk.len() > 0 && chunk[0] == DELETE {
        (
            if data.len() > 0 {
                data.drop_last()
            } else {
                data
            },
            false,
        )
    } else {
        (data + chunk, false)
    }
}

/// Takes what the user typed into a prompt, and says whether the prompt is
/// over.
pub fn input_step(data: &mut Vec<char>, chunk: &str) -> (done: bool)
    ensures
        (final(data)@, done) == input_step_spec(old(data)@, chunk@),
{
    let typed: Vec<char> = crate::text::to_chars(chunk);
    if typed.len() > 0 && typed[0] == ENTER {
        return true;
    }
    if typed.len() > 0 && typed[0] == DELETE {
        if data.len() > 0 {
            data.pop();
        }
        return false;
    }
    let mut i: usize = 0;
    while i < typed.len()
        invariant
            i <= typed.len(),
            data@ == old(data)@ + typed@.take(i as int),
        decreases typed.len() - i,
    {
        data.push(typed[i]);
        proof {
            assert(typed@.take(i + 1) == typed@.take(i as int).push(typed@[i as int]));
            assert(old(data)@ + typed@.take(i as int).push(typed@[i as int]) == (old(data)@
                + typed@.take(i as int)).push(typed@[i as int]));
        }
        i += 1;
    }
    proof {
        assert(typed@.take(typed.len() as int) == typed@);
    }
    false
}

/// What a key makes of a menu.
#[derive(Clone, Copy, Debug, PartialEq, Eq, Structural)]
pub enum MenuStep {
    /// The entry at this place is marked, and the menu stays open.
    Moved(usize),
    /// The entry at this place is chosen, and the menu closes.
    Chosen(usize),
}

/// What a key makes of a menu of `count` entries whose entry `curr` is
/// marked: enter chooses the marked entry; a key from `0` on chooses the
/// entry of that number, if there is one; `j` marks the next entry and `k`
/// the one before, around the ends; any other key changes nothing.
pub open spec fn selection_menu_step_spec(curr: usize, count: usize, key: u8) -> MenuStep {
    if key == 10 {
        MenuStep::Chosen(curr)
    } else if key >= 48 && key - 48 < count {
        MenuStep::Chosen((key - 48) as usize)
    } else if key == 106 {
        MenuStep::Moved(
            if curr + 1 >= count {
                0
            } else {
                (curr + 1) as usize
            },
        )
    } else if key == 107 {
        MenuStep::Moved(
            if curr == 0 {
                (count - 1) as usize
            } else {
                (curr - 1) as usize
            },
        )
    } else {
        MenuStep::Moved(curr)
    }
}

/// Takes a key that the user pressed in a menu.
pub fn selection_menu_step(curr: usize, count: usize, key: u8) -> (step: MenuStep)
    requires
        curr < count,
    ensures
        step == selection_menu_step_spec(curr, count, key),
        match step {
            MenuStep::Moved(at) => at < count,
            MenuStep::Chosen(at) => at < count,
        },
{
    if key == 10 {
        MenuStep::Chosen(curr)
    } else if key >= 48 && ((key - 48) as usize) < count {
        MenuStep::Chosen((key - 48) as usize)
    } else if key == 106 {
        MenuStep::Moved(
            if curr + 1 >= count {
                0
            } else {
                curr + 1
            },
        )
    } else if key == 107 {
        MenuStep::Moved(
            if curr == 0 {
                count - 1
            } else {
                curr - 1
            },
        )
    } else {
        MenuStep::Moved(curr)
    }
}

} // verus!
