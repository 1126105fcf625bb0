use vstd::prelude::*;

verus! {

/// Conversation mode understood by the generation service.
#[derive(Debug, Clone, Copy, PartialEq, Eq, Structural)]
pub enum Mode {
    Chat,
    ChatInstruct,
    Instruct,
}

/// The name under which a mode travels on the wire.
pub open spec fn mode_wire(m: Mode) -> Seq<char> {
    match m {
        Mode::Chat => "chat"@,
        Mode::ChatInstruct => "chat-instruct"@,
        Mode::Instruct => "instruct"@,
    }
}

/// The mode that a wire name stands for, if any.
pub open spec fn mode_from_wire(s: Seq<char>) -> Option<Mode> {
    if s == "chat"@ {
        Some(Mode::Chat)
    } else if s == "chat-instruct"@ {
        Some(Mode::ChatInstruct)
    } else if s == "instruct"@ {
        Some(Mode::Instruct)
    } else {
        None
    }
}

/// Reading back the wire name of a mode gives that mode.
pub proof fn lemma_mode_wire_round_trip(m: Mode)
    ensures
        mode_from_wire(mode_wire(m)) == Some(m),
{
    reveal_strlit("chat");
    reveal_strlit("chat-instruct");
    reveal_strlit("instruct");
    assert("chat"@.len() == 4);
    assert("chat-instruct"@.len() == 13);
    assert("instruct"@.len() == 8);
}

/// A name that reads as a mode is exactly that mode's wire name.
pub proof fn lemma_mode_from_wire_exact(s: Seq<char>)
    ensures
        mode_from_wire(s) matches Some(m) ==> mode_wire(m) == s,
{
}

impl Mode {
    /// The wire name of this mode.
    pub fn wire_name(&self) -> (r: String)
        ensures
            r@ == mode_wire(*self),
    {
        match self {
            Mode::Chat => "chat".to_owned(),
            Mode::ChatInstruct => "chat-instruct".to_owned(),
            Mode::Instruct => "instruct".to_owned(),
        }
    }

    /// The mode whose wire name is `s`, or `None` for any other text.
    pub fn from_wire(s: &str) -> (r: Option<Mode>)
        ensures
            r == mode_from_wire(s@),
    {
        let t = s.to_owned();
        if t == "chat".to_owned() {
            Some(Mode::Chat)
        } else if t == "chat-instruct".to_owned() {
            Some(Mode::ChatInstruct)
        } else if t == "instruct".to_owned() {
            Some(Mode::Instruct)
        } else {
            None
        }
    }
}

} // verus!
