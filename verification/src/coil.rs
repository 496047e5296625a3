//! The two-valued state of a coil.
use crate::error::Error;
use vstd::prelude::*;
use vstd::string::StrSliceExecFns;

verus! {

/// Single bit status values, used in read or write coil functions
#[derive(Debug, Clone, Copy, PartialEq, Eq, Structural)]
pub enum Coil {
    On,
    Off,
}

impl Coil {
    /// The 16-bit value that stands for the state on the wire.
    pub open spec fn spec_code(self) -> u16 {
        match self {
            Coil::On => 0xff00,
            Coil::Off => 0x0000,
        }
    }

    /// The state that a text names: `On` and `Off`, letter for letter.
    pub open spec fn spec_parse(text: Seq<char>) -> Option<Coil> {
        if text == seq!['O', 'n'] {
            Some(Coil::On)
        } else if text == seq!['O', 'f', 'f'] {
            Some(Coil::Off)
        } else {
            None
        }
    }

    /// The state that a wire value stands for: `0xff00` for on, `0x0000` for
    /// off, and no other value for either.
    pub open spec fn spec_from_code(code: u16) -> Option<Coil> {
        if code == 0xff00 {
            Some(Coil::On)
        } else if code == 0x0000 {
            Some(Coil::Off)
        } else {
            None
        }
    }

    /// The other state.
    pub open spec fn spec_not(self) -> Coil {
        match self {
            Coil::On => Coil::Off,
            Coil::Off => Coil::On,
        }
    }

    /// The state that a boolean stands for.
    pub open spec fn spec_from_bool(b: bool) -> Coil {
        if b {
            Coil::On
        } else {
            Coil::Off
        }
    }

    /// The wire value of the state.
    pub fn code(self) -> (code: u16)
        ensures
            code == self.spec_code(),
    {
        match self {
            Coil::On => 0xff00,
            Coil::Off => 0x0000,
        }
    }

    /// The state that a wire value stands for, if it stands for one.
    pub fn from_code(code: u16) -> (found: Option<Coil>)
        ensures
            found == Self::spec_from_code(code),
    {
        if code == 0xff00 {
            Some(Coil::On)
        } else if code == 0x0000 {
            Some(Coil::Off)
        } else {
            None
        }
    }

    /// Reads a state from text. `On` and `Off` are accepted as written;
    /// any other text, whatever its case or spacing, is a `ParseCoilError`.
    pub fn parse(s: &str) -> (parsed: Result<Coil, Error>)
        ensures
            match Self::spec_parse(s@) {
                Some(coil) => parsed == Ok::<Coil, Error>(coil),
                None => parsed == Err::<Coil, Error>(Error::ParseCoilError),
            },
    {
        let n: usize = s.unicode_len();
        if n == 2 && s.get_char(0) == 'O' && s.get_char(1) == 'n' {
            assert(s@ =~= seq!['O', 'n']);
            Ok(Coil::On)
        } else if n == 3 && s.get_char(0) == 'O' && s.get_char(1) == 'f' && s.get_char(2) == 'f' {
            assert(s@ =~= seq!['O', 'f', 'f']);
            Ok(Coil::Off)
        } else {
            Err(Error::ParseCoilError)
        }
    }
}

impl std::str::FromStr for Coil {
    type Err = Error;

    fn from_str(s: &str) -> (parsed: Result<Coil, Error>)
        ensures
            match Coil::spec_parse(s@) {
                Some(coil) => parsed == Ok::<Coil, Error>(coil),
                None => parsed == Err::<Coil, Error>(Error::ParseCoilError),
            },
    {
        Coil::parse(s)
    }
}

impl From<bool> for Coil {
    /// `true` is on, `false` is off.
    fn from(b: bool) -> (coil: Coil)
        ensures
            coil == Coil::spec_from_bool(b),
    {
        if b {
            Coil::On
        } else {
            Coil::Off
        }
    }
}

impl vstd::std_specs::convert::FromSpecImpl<bool> for Coil {
    open spec fn obeys_from_spec() -> bool {
        true
    }

    open spec fn from_spec(b: bool) -> Coil {
        Coil::spec_from_bool(b)
    }
}

impl std::ops::Not for Coil {
    type Output = Coil;

    /// The other state; the state itself is left as it was.
    fn not(self) -> (flipped: Coil)
        ensures
            flipped == self.spec_not(),
    {
        match self {
            Coil::On => Coil::Off,
            Coil::Off => Coil::On,
        }
    }
}

impl vstd::std_specs::ops::NotSpecImpl for Coil {
    open spec fn obeys_not_spec() -> bool {
        true
    }

    open spec fn not_req(self) -> bool {
        true
    }

    open spec fn not_spec(self) -> Coil {
        Coil::spec_not(self)
    }
}

/// Negating a state never gives the state back, and negating twice always
/// does.
pub proof fn lemma_not_involution(coil: Coil)
    ensures
        coil.spec_not() != coil,
        coil.spec_not().spec_not() == coil,
{
}

/// The two booleans stand for different states, and the negation of a
/// boolean stands for the negated state. Of the state that a boolean stands
/// for, one negation never gives it back and two always do.
pub proof fn lemma_from_bool(b: bool)
    ensures
        Coil::spec_from_bool(true) != Coil::spec_from_bool(false),
        Coil::spec_from_bool(!b) == Coil::spec_from_bool(b).spec_not(),
        Coil::spec_from_bool(b).spec_not() != Coil::spec_from_bool(b),
        Coil::spec_from_bool(b).spec_not().spec_not() == Coil::spec_from_bool(b),
{
}

/// The wire value tells the two states apart, and reading it back gives the
/// state.
pub proof fn lemma_code_round_trip(a: Coil, b: Coil)
    ensures
        a.spec_code() == b.spec_code() <==> a == b,
        Coil::spec_from_code(a.spec_code()) == Some(a),
{
}

} // verus!
