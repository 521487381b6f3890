//! The virtual pointer's buttons. Positions and deltas are floating point and
//! are checked by the application; this module owns the button rules.
use vstd::prelude::*;
use crate::protocol::Diagnostic;
use crate::text::str_eq;

verus! {

/// A pointer button.
#[derive(Debug, PartialEq, Eq, Structural, Clone, Copy)]
pub enum Button {
    Left,
    Right,
    Middle,
}

/// The button a wire token names, if any.
pub open spec fn button_of(token: Seq<char>) -> Option<Button> {
    if token == "left"@ {
        Some(Button::Left)
    } else if token == "right"@ {
        Some(Button::Right)
    } else if token == "middle"@ {
        Some(Button::Middle)
    } else {
        None
    }
}

/// Reads a button token.
pub fn parse_button(token: &str) -> (r: Option<Button>)
    ensures
        r == button_of(token@),
        token@ == "left"@ ==> r == Some(Button::Left),
        token@ == "right"@ ==> r == Some(Button::Right),
        token@ == "middle"@ ==> r == Some(Button::Middle),
{
    proof {
        tokens_name_their_buttons();
    }
    if str_eq(token, "left") {
        Some(Button::Left)
    } else if str_eq(token, "right") {
        Some(Button::Right)
    } else if str_eq(token, "middle") {
        Some(Button::Middle)
    } else {
        None
    }
}

/// The message of a pointer without an accepted location in the current target.
pub open spec fn location_unavailable_message() -> Seq<char> {
    "move the pointer into the current image target or primary window first"@
}

/// The buttons the virtual pointer holds.
pub struct Buttons {
    left: bool,
    right: bool,
    middle: bool,
}

impl Buttons {
    /// Whether a button is held.
    pub closed spec fn held(&self, b: Button) -> bool {
        match b {
            Button::Left => self.left,
            Button::Right => self.right,
            Button::Middle => self.middle,
        }
    }

    /// No button held.
    pub fn new() -> (r: Buttons)
        ensures
            forall|b: Button| !r.held(b),
    {
        Buttons { left: false, right: false, middle: false }
    }

    /// Whether a button is held.
    pub fn is_held(&self, b: Button) -> (r: bool)
        ensures
            r == self.held(b),
    {
        match b {
            Button::Left => self.left,
            Button::Right => self.right,
            Button::Middle => self.middle,
        }
    }

    /// Accepts a press (`down`) or release of the button `token` names. An
    /// unknown token, a pointer without an accepted location, a press of a held
    /// button and a release of a free one are refused in that order, and a
    /// refusal changes nothing. Returns the button whose edge is to be queued.
    pub fn button(&mut self, token: &str, location_available: bool, down: bool) -> (r: Result<
        Button,
        Diagnostic,
    >)
        ensures
            r is Err ==> forall|b: Button| final(self).held(b) == old(self).held(b),
            ({
                let named = if token@ == "left"@ {
                    Some(Button::Left)
                } else if token@ == "right"@ {
                    Some(Button::Right)
                } else if token@ == "middle"@ {
                    Some(Button::Middle)
                } else {
                    None
                };
                named is Some && location_available && old(self).held(named->0) != down ==> {
                    &&& r == Ok::<Button, Diagnostic>(named->0)
                    &&& final(self).held(named->0) == down
                }
            }),
            match button_of(token@) {
                None => r is Err && r->Err_0.code@ == "invalid_pointer_button"@
                    && r->Err_0.message@ == token@,
                Some(b) => if !location_available {
                    r is Err && r->Err_0.code@ == "pointer_location_unavailable"@
                        && r->Err_0.message@ == location_unavailable_message()
                } else if old(self).held(b) == down {
                    &&& r is Err
                    &&& r->Err_0.code@ == if down {
                        "pointer_button_already_pressed"@
                    } else {
                        "pointer_button_not_pressed"@
                    }
                    &&& r->Err_0.message@ == token@
                } else {
                    &&& r == Ok::<Button, Diagnostic>(b)
                    &&& final(self).held(b) == down
                    &&& forall|o: Button| o != b ==> final(self).held(o) == old(self).held(o)
                },
            },
    {
        proof {
            tokens_name_their_buttons();
        }
        let b = match parse_button(token) {
            None => {
                return Err(Diagnostic::new("invalid_pointer_button", String::from_str(token)));
            },
            Some(b) => b,
        };
        if !location_available {
            return Err(
                Diagnostic::new(
                    "pointer_location_unavailable",
                    String::from_str(
                        "move the pointer into the current image target or primary window first",
                    ),
                ),
            );
        }
        if self.is_held(b) == down {
            let code = if down {
                "pointer_button_already_pressed"
            } else {
                "pointer_button_not_pressed"
            };
            return Err(Diagnostic::new(code, String::from_str(token)));
        }
        match b {
            Button::Left => self.left = down,
            Button::Right => self.right = down,
            Button::Middle => self.middle = down,
        }
        Ok(b)
    }
}

/// The three wire tokens name the three buttons, each its own: `left` the
/// left, `right` the right and `middle` the middle button.
pub proof fn tokens_name_their_buttons()
    ensures
        button_of("left"@) == Some(Button::Left),
        button_of("right"@) == Some(Button::Right),
        button_of("middle"@) == Some(Button::Middle),
{
    reveal_strlit("left");
    reveal_strlit("right");
    reveal_strlit("middle");
    assert("right"@.len() != "left"@.len());
    assert("middle"@.len() != "left"@.len() && "middle"@.len() != "right"@.len());
}

} // verus!
