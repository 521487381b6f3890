//! Virtual text input: accepted text is pinned to the focused field it was
//! validated against and applied on the next tick.
use vstd::prelude::*;
use vstd::utf8::encode_utf8;
use crate::protocol::Diagnostic;

verus! {

/// The most UTF-8 bytes one text input may carry.
pub const MAX_BYTES: usize = 16384;

/// Accepted text, each piece pinned to the field entity it goes to.
pub struct State {
    pending: Vec<(u64, String)>,
}

impl State {
    /// The accepted text waiting for the next tick.
    pub closed spec fn pending_spec(&self) -> Seq<(u64, String)> {
        self.pending@
    }

    /// No text waiting.
    pub fn new() -> (s: State)
        ensures
            s.pending_spec().len() == 0,
    {
        State { pending: Vec::new() }
    }

    /// Accepts text for the focused editable field. Oversized text, a missing
    /// primary window and a missing focused field are refused in that order,
    /// and a refusal changes nothing.
    pub fn input(&mut self, text: String, window_available: bool, focus: Option<u64>) -> (r: Result<
        (),
        Diagnostic,
    >)
        ensures
            r is Err ==> final(self).pending_spec() == old(self).pending_spec(),
            if encode_utf8(text@).len() > MAX_BYTES {
                r is Err && r->Err_0.code@ == "text_too_large"@ && r->Err_0.message@
                    == "text exceeds 16384 UTF-8 bytes"@
            } else if !window_available {
                r is Err && r->Err_0.code@ == "text_window_unavailable"@ && r->Err_0.message@
                    == "expected exactly one primary window"@
            } else {
                match focus {
                    None => r is Err && r->Err_0.code@ == "text_focus_unavailable"@
                        && r->Err_0.message@ == "expected a live focused EditableText entity"@,
                    Some(entity) => r is Ok && final(self).pending_spec() == old(
                        self,
                    ).pending_spec().push((entity, text)),
                }
            },
    {
        if text.as_str().as_bytes().len() > MAX_BYTES {
            return Err(
                Diagnostic::new("text_too_large", String::from_str("text exceeds 16384 UTF-8 bytes")),
            );
        }
        if !window_available {
            return Err(
                Diagnostic::new(
                    "text_window_unavailable",
                    String::from_str("expected exactly one primary window"),
                ),
            );
        }
        match focus {
            None => Err(
                Diagnostic::new(
                    "text_focus_unavailable",
                    String::from_str("expected a live focused EditableText entity"),
                ),
            ),
            Some(entity) => {
                self.pending.push((entity, text));
                Ok(())
            },
        }
    }

    /// Hands the accepted text to the next tick, oldest first.
    pub fn flush(&mut self) -> (r: Vec<(u64, String)>)
        ensures
            r@ == old(self).pending_spec(),
            final(self).pending_spec().len() == 0,
    {
        let mut out: Vec<(u64, String)> = Vec::new();
        std::mem::swap(&mut out, &mut self.pending);
        out
    }
}

} // verus!
