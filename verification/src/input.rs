use vstd::prelude::*;
use crate::text::str_eq;

verus! {

/// Whether a key went down or up.
#[derive(Debug, Clone, Copy, PartialEq, Eq, Structural)]
pub enum ElementState {
    Pressed,
    Released,
}

/// The logical key of a keyboard event, as far as the game reads it.
#[derive(Debug)]
pub enum Key {
    Character(String),
    Space,
    Shift,
    Other,
}

/// A keyboard event.
#[derive(Debug)]
pub struct KeyEvent {
    pub logical_key: Key,
    pub state: ElementState,
}

/// A key whose presses are counted, so that a press between two frames is not lost.
#[derive(Debug, Clone, Copy, PartialEq, Eq, Structural)]
pub struct Click {
    pub queued_count: usize,
    pub pressed: bool,
}

/// The keyboard state the game reads each frame. Mouse motion, a pair of floats, is kept beside
/// it by the application.
#[derive(Debug, Clone, Copy, PartialEq, Eq, Structural)]
pub struct InputState {
    pub left_pressed: bool,
    pub right_pressed: bool,
    pub forward_pressed: bool,
    pub backward_pressed: bool,
    pub roll_pos_pressed: bool,
    pub roll_neg_pressed: bool,
    pub jump: Click,
    pub sprint: bool,
    pub camera_lock: bool,
}

/// The click after an event: a press while released queues one more click.
pub open spec fn spec_click_apply(c: Click, state: ElementState) -> Click {
    if state == ElementState::Pressed && !c.pressed {
        Click { queued_count: (c.queued_count + 1) as usize, pressed: true }
    } else if state == ElementState::Released && c.pressed {
        Click { queued_count: c.queued_count, pressed: false }
    } else {
        c
    }
}

/// The input state after a keyboard event: W, A, S, D move, Q and E roll, F locks the camera,
/// Space jumps and Shift sprints; other keys change nothing.
pub open spec fn spec_apply_keyboard(s: InputState, e: KeyEvent) -> InputState {
    let down = e.state == ElementState::Pressed;
    match e.logical_key {
        Key::Character(c) => if c@ == "w"@ {
            InputState { forward_pressed: down, ..s }
        } else if c@ == "a"@ {
            InputState { left_pressed: down, ..s }
        } else if c@ == "s"@ {
            InputState { backward_pressed: down, ..s }
        } else if c@ == "d"@ {
            InputState { right_pressed: down, ..s }
        } else if c@ == "q"@ {
            InputState { roll_neg_pressed: down, ..s }
        } else if c@ == "e"@ {
            InputState { roll_pos_pressed: down, ..s }
        } else if c@ == "f"@ {
            InputState { camera_lock: down, ..s }
        } else {
            s
        },
        Key::Space => InputState { jump: spec_click_apply(s.jump, e.state), ..s },
        Key::Shift => InputState { sprint: down, ..s },
        Key::Other => s,
    }
}

pub open spec fn signed(b: bool) -> int {
    if b {
        1
    } else {
        0
    }
}

impl Click {
    pub fn apply(&mut self, state: ElementState)
        requires
            old(self).queued_count < usize::MAX,
        ensures
            *final(self) == spec_click_apply(*old(self), state),
    {
        if state == ElementState::Pressed && !self.pressed {
            self.queued_count = self.queued_count + 1;
            self.pressed = true;
        } else if state == ElementState::Released && self.pressed {
            self.pressed = false;
        }
    }
}

impl InputState {
    pub fn new() -> (res: InputState)
        ensures
            !res.left_pressed && !res.right_pressed && !res.forward_pressed
                && !res.backward_pressed && !res.roll_pos_pressed && !res.roll_neg_pressed,
            res.jump == (Click { queued_count: 0, pressed: false }),
            !res.sprint,
            !res.camera_lock,
    {
        InputState {
            left_pressed: false,
            right_pressed: false,
            forward_pressed: false,
            backward_pressed: false,
            roll_pos_pressed: false,
            roll_neg_pressed: false,
            jump: Click { queued_count: 0, pressed: false },
            sprint: false,
            camera_lock: false,
        }
    }

    pub fn apply_keyboard(&mut self, input: KeyEvent)
        requires
            old(self).jump.queued_count < usize::MAX,
        ensures
            *final(self) == spec_apply_keyboard(*old(self), input),
    {
        let down = input.state == ElementState::Pressed;
        match &input.logical_key {
            Key::Character(chr) => {
                let c = chr.as_str();
                if str_eq(c, "w") {
                    self.forward_pressed = down;
                } else if str_eq(c, "a") {
                    self.left_pressed = down;
                } else if str_eq(c, "s") {
                    self.backward_pressed = down;
                } else if str_eq(c, "d") {
                    self.right_pressed = down;
                } else if str_eq(c, "q") {
                    self.roll_neg_pressed = down;
                } else if str_eq(c, "e") {
                    self.roll_pos_pressed = down;
                } else if str_eq(c, "f") {
                    self.camera_lock = down;
                }
            },
            Key::Space => self.jump.apply(input.state),
            Key::Shift => self.sprint = down,
            Key::Other => {},
        }
    }

    /// Clears the clicks queued during the frame.
    pub fn reset_after_frame(&mut self)
        ensures
            *final(self) == (InputState {
                jump: Click { queued_count: 0, pressed: old(self).jump.pressed },
                ..*old(self)
            }),
    {
        self.jump.queued_count = 0;
    }

    /// Sideways movement: -1 to the left, 1 to the right, 0 for both or neither.
    pub fn movement_horizontal(&self) -> (res: i32)
        ensures
            res == signed(self.right_pressed) - signed(self.left_pressed),
    {
        let mut sum: i32 = 0;
        if self.left_pressed {
            sum = sum - 1;
        }
        if self.right_pressed {
            sum = sum + 1;
        }
        sum
    }

    /// Forward movement: 1 forward, -1 backward, 0 for both or neither.
    pub fn movement_depth(&self) -> (res: i32)
        ensures
            res == signed(self.forward_pressed) - signed(self.backward_pressed),
    {
        let mut sum: i32 = 0;
        if self.backward_pressed {
            sum = sum - 1;
        }
        if self.forward_pressed {
            sum = sum + 1;
        }
        sum
    }

    pub fn movement_jumps(&self) -> (res: usize)
        ensures
            res == self.jump.queued_count,
    {
        self.jump.queued_count
    }

    pub fn movement_sprint(&self) -> (res: bool)
        ensures
            res == self.sprint,
    {
        self.sprint
    }

    /// Whether mouse motion turns the camera (yaw and pitch); it does not while the camera is
    /// locked.
    pub fn camera_follows_mouse(&self) -> (res: bool)
        ensures
            res == !self.camera_lock,
    {
        !self.camera_lock
    }

    /// Roll: 1 with E, -1 with Q, 0 for both or neither.
    pub fn camera_roll(&self) -> (res: i32)
        ensures
            res == signed(self.roll_pos_pressed) - signed(self.roll_neg_pressed),
    {
        let mut sum: i32 = 0;
        if self.roll_pos_pressed {
            sum = sum + 1;
        }
        if self.roll_neg_pressed {
            sum = sum - 1;
        }
        sum
    }
}

/// Law: a letter key sets the flag it controls to whether the key is down (W forward, A left,
/// S backward, D right, Q roll negative, E roll positive, F camera lock), and Shift the sprint
/// flag, leaving every other flag as it was; releasing a key therefore clears its flag.
pub proof fn law_keys_set_their_flags(s: InputState, e: KeyEvent)
    ensures
        ({
            let r = spec_apply_keyboard(s, e);
            let down = e.state == ElementState::Pressed;
            &&& e.logical_key matches Key::Character(c) ==> {
                &&& c@ == "w"@ ==> r == InputState { forward_pressed: down, ..s }
                &&& c@ == "a"@ ==> r == InputState { left_pressed: down, ..s }
                &&& c@ == "s"@ ==> r == InputState { backward_pressed: down, ..s }
                &&& c@ == "d"@ ==> r == InputState { right_pressed: down, ..s }
                &&& c@ == "q"@ ==> r == InputState { roll_neg_pressed: down, ..s }
                &&& c@ == "e"@ ==> r == InputState { roll_pos_pressed: down, ..s }
                &&& c@ == "f"@ ==> r == InputState { camera_lock: down, ..s }
            }
            &&& e.logical_key is Shift ==> r == InputState { sprint: down, ..s }
            &&& e.logical_key is Other ==> r == s
        }),
{
    reveal_strlit("w");
    reveal_strlit("a");
    reveal_strlit("s");
    reveal_strlit("d");
    reveal_strlit("q");
    reveal_strlit("e");
    reveal_strlit("f");
    assert("w"@ =~= seq!['w']);
    assert("a"@ =~= seq!['a']);
    assert("s"@ =~= seq!['s']);
    assert("d"@ =~= seq!['d']);
    assert("q"@ =~= seq!['q']);
    assert("e"@ =~= seq!['e']);
    assert("f"@ =~= seq!['f']);
    if let Key::Character(c) = e.logical_key {
            if c@ == "a"@ {
                assert(c@[0] == 'a');
                assert(c@ != "w"@) by { assert("w"@[0] == 'w'); }
            }
            if c@ == "s"@ {
                assert(c@[0] == 's');
                assert(c@ != "w"@) by { assert("w"@[0] == 'w'); }
                assert(c@ != "a"@) by { assert("a"@[0] == 'a'); }
            }
            if c@ == "d"@ {
                assert(c@[0] == 'd');
                assert(c@ != "w"@) by { assert("w"@[0] == 'w'); }
                assert(c@ != "a"@) by { assert("a"@[0] == 'a'); }
                assert(c@ != "s"@) by { assert("s"@[0] == 's'); }
            }
            if c@ == "q"@ {
                assert(c@[0] == 'q');
                assert(c@ != "w"@) by { assert("w"@[0] == 'w'); }
                assert(c@ != "a"@) by { assert("a"@[0] == 'a'); }
                assert(c@ != "s"@) by { assert("s"@[0] == 's'); }
                assert(c@ != "d"@) by { assert("d"@[0] == 'd'); }
            }
            if c@ == "e"@ {
                assert(c@[0] == 'e');
                assert(c@ != "w"@) by { assert("w"@[0] == 'w'); }
                assert(c@ != "a"@) by { assert("a"@[0] == 'a'); }
                assert(c@ != "s"@) by { assert("s"@[0] == 's'); }
                assert(c@ != "d"@) by { assert("d"@[0] == 'd'); }
                assert(c@ != "q"@) by { assert("q"@[0] == 'q'); }
            }
            if c@ == "f"@ {
                assert(c@[0] == 'f');
                assert(c@ != "w"@) by { assert("w"@[0] == 'w'); }
                assert(c@ != "a"@) by { assert("a"@[0] == 'a'); }
                assert(c@ != "s"@) by { assert("s"@[0] == 's'); }
                assert(c@ != "d"@) by { assert("d"@[0] == 'd'); }
                assert(c@ != "q"@) by { assert("q"@[0] == 'q'); }
                assert(c@ != "e"@) by { assert("e"@[0] == 'e'); }
            }
    }
}

/// The click after a sequence of key states.
pub open spec fn click_after(c: Click, states: Seq<ElementState>) -> Click
    decreases states.len(),
{
    if states.len() == 0 {
        c
    } else {
        spec_click_apply(click_after(c, states.drop_last()), states.last())
    }
}

/// Number of presses in a sequence of key states that find the key released.
pub open spec fn press_count(pressed: bool, states: Seq<ElementState>) -> nat
    decreases states.len(),
{
    if states.len() == 0 {
        0
    } else {
        let before = click_after(Click { queued_count: 0, pressed }, states.drop_last()).pressed;
        press_count(pressed, states.drop_last()) + if states.last() == ElementState::Pressed
            && !before {
            1nat
        } else {
            0nat
        }
    }
}

/// Law: a click counts each press that finds the key released, once, however long the key is
/// held; releases and repeated presses add nothing, and the key ends up down exactly when the
/// last event was a press.
pub proof fn law_click_counts_presses(c: Click, states: Seq<ElementState>)
    requires
        c.queued_count + states.len() <= usize::MAX,
    ensures
        click_after(c, states).queued_count == c.queued_count + press_count(c.pressed, states),
        states.len() > 0 ==> click_after(c, states).pressed == (states.last()
            == ElementState::Pressed),
        states.len() == 0 ==> click_after(c, states).pressed == c.pressed,
    decreases states.len(),
{
    if states.len() > 0 {
        law_click_counts_presses(c, states.drop_last());
        lemma_pressed_independent(c, states.drop_last());
        lemma_press_count_bound(c.pressed, states.drop_last());
    }
}

proof fn lemma_pressed_independent(c: Click, states: Seq<ElementState>)
    requires
        c.queued_count + states.len() <= usize::MAX,
    ensures
        click_after(c, states).pressed == click_after(
            Click { queued_count: 0, pressed: c.pressed },
            states,
        ).pressed,
    decreases states.len(),
{
    if states.len() > 0 {
        lemma_pressed_independent(c, states.drop_last());
    }
}

proof fn lemma_press_count_bound(pressed: bool, states: Seq<ElementState>)
    ensures
        press_count(pressed, states) <= states.len(),
    decreases states.len(),
{
    if states.len() > 0 {
        lemma_press_count_bound(pressed, states.drop_last());
    }
}

} // verus!
