//! Valve state, as commanded and as measured.
use vstd::prelude::*;
use vstd::string::StringExecFns;
use crate::codec::{from_wire, same_text, to_wire, Variant, WireError};
use crate::wire::postcard_u32_value;

verus! {

/// The most bytes that a composite valve state takes on the wire: one byte
/// for each of its two states.
pub const COMPOSITE_VALVE_STATE_WIRE_MAX_SIZE: usize = 2;

/// A state that a valve is in, or is commanded to.
#[derive(Clone, Copy, Debug, PartialEq, Eq, Hash, Structural)]
pub enum ValveState {
    /// Not known, whether because the valve is unmapped or has not been
    /// commanded yet.
    Undetermined,
    /// The valve is disconnected.
    Disconnected,
    /// The valve is open.
    Open,
    /// The valve is closed.
    Closed,
    /// The valve is at fault.
    Fault,
}

impl ValveState {
    /// The state's legend, as displays show it.
    pub open spec fn spec_legend(&self) -> Seq<char> {
        match self {
            ValveState::Undetermined => "undetermined"@,
            ValveState::Disconnected => "disconnected"@,
            ValveState::Open => "open"@,
            ValveState::Closed => "closed"@,
            ValveState::Fault => "fault"@,
        }
    }

    /// The state's legend, as displays show it.
    pub fn to_string(&self) -> (r: String)
        ensures
            r@ == self.spec_legend(),
    {
        let s = match self {
            ValveState::Undetermined => "undetermined",
            ValveState::Disconnected => "disconnected",
            ValveState::Open => "open",
            ValveState::Closed => "closed",
            ValveState::Fault => "fault",
        };
        String::from_str(s)
    }

    /// The coloured legend for the operator interface; every state renders as
    /// an empty string.
    pub fn to_pretty_string(&self) -> (r: String)
        ensures
            r@ == Seq::<char>::empty(),
    {
        let s = match self {
            ValveState::Undetermined => "",
            ValveState::Disconnected => "",
            ValveState::Open => "",
            ValveState::Closed => "",
            ValveState::Fault => "",
        };
        proof {
            reveal_strlit("");
        }
        String::from_str(s)
    }
}

impl Default for ValveState {
    /// An unmapped or uncommanded valve is undetermined.
    fn default() -> (r: ValveState)
        ensures
            r == ValveState::Undetermined,
    {
        ValveState::Undetermined
    }
}

impl Variant for ValveState {
    open spec fn spec_name(&self) -> Seq<char> {
        match self {
            ValveState::Undetermined => "undetermined"@,
            ValveState::Disconnected => "disconnected"@,
            ValveState::Open => "open"@,
            ValveState::Closed => "closed"@,
            ValveState::Fault => "fault"@,
        }
    }

    open spec fn spec_index(&self) -> u32 {
        match self {
            ValveState::Undetermined => 0,
            ValveState::Disconnected => 1,
            ValveState::Open => 2,
            ValveState::Closed => 3,
            ValveState::Fault => 4,
        }
    }

    open spec fn spec_from_name(name: Seq<char>) -> Option<ValveState> {
        if name == "undetermined"@ {
            Some(ValveState::Undetermined)
        } else if name == "disconnected"@ {
            Some(ValveState::Disconnected)
        } else if name == "open"@ {
            Some(ValveState::Open)
        } else if name == "closed"@ {
            Some(ValveState::Closed)
        } else if name == "fault"@ {
            Some(ValveState::Fault)
        } else {
            None
        }
    }

    open spec fn spec_from_index(index: u32) -> Option<ValveState> {
        if index == 0 {
            Some(ValveState::Undetermined)
        } else if index == 1 {
            Some(ValveState::Disconnected)
        } else if index == 2 {
            Some(ValveState::Open)
        } else if index == 3 {
            Some(ValveState::Closed)
        } else if index == 4 {
            Some(ValveState::Fault)
        } else {
            None
        }
    }

    proof fn lemma_variant(&self) {
        reveal_strlit("undetermined");
        reveal_strlit("disconnected");
        reveal_strlit("open");
        reveal_strlit("closed");
        reveal_strlit("fault");
        assert("undetermined"@[0] != "disconnected"@[0]);
        assert("undetermined"@.len() != "open"@.len());
        assert("undetermined"@.len() != "closed"@.len());
        assert("undetermined"@.len() != "fault"@.len());
        assert("disconnected"@.len() != "open"@.len());
        assert("disconnected"@.len() != "closed"@.len());
        assert("disconnected"@.len() != "fault"@.len());
        assert("open"@.len() != "closed"@.len());
        assert("open"@.len() != "fault"@.len());
        assert("closed"@.len() != "fault"@.len());
    }

    fn name(&self) -> (r: &'static str) {
        match self {
            ValveState::Undetermined => "undetermined",
            ValveState::Disconnected => "disconnected",
            ValveState::Open => "open",
            ValveState::Closed => "closed",
            ValveState::Fault => "fault",
        }
    }

    fn index(&self) -> (r: u32) {
        match self {
            ValveState::Undetermined => 0,
            ValveState::Disconnected => 1,
            ValveState::Open => 2,
            ValveState::Closed => 3,
            ValveState::Fault => 4,
        }
    }

    fn from_name(name: &str) -> (r: Option<ValveState>) {
        if same_text(name, "undetermined") {
            Some(ValveState::Undetermined)
        } else if same_text(name, "disconnected") {
            Some(ValveState::Disconnected)
        } else if same_text(name, "open") {
            Some(ValveState::Open)
        } else if same_text(name, "closed") {
            Some(ValveState::Closed)
        } else if same_text(name, "fault") {
            Some(ValveState::Fault)
        } else {
            None
        }
    }

    fn from_index(index: u32) -> (r: Option<ValveState>) {
        if index == 0 {
            Some(ValveState::Undetermined)
        } else if index == 1 {
            Some(ValveState::Disconnected)
        } else if index == 2 {
            Some(ValveState::Open)
        } else if index == 3 {
            Some(ValveState::Closed)
        } else if index == 4 {
            Some(ValveState::Fault)
        } else {
            None
        }
    }
}

/// What software last commanded a valve to, and the state that its voltage and
/// current measurements show. The two are independent; two composite states
/// are equal when both of their fields are.
#[derive(Clone, Copy, Debug, PartialEq, Eq, Hash, Structural)]
pub struct CompositeValveState {
    /// The state that software commanded.
    pub commanded: ValveState,
    /// The state that the measurements show.
    pub actual: ValveState,
}

impl Default for CompositeValveState {
    /// A valve that was neither commanded nor measured.
    fn default() -> (r: CompositeValveState)
        ensures
            r == (CompositeValveState {
                commanded: ValveState::Undetermined,
                actual: ValveState::Undetermined,
            }),
    {
        CompositeValveState { commanded: ValveState::Undetermined, actual: ValveState::Undetermined }
    }
}

impl CompositeValveState {
    /// The wire form: the commanded state's byte, then the actual state's.
    pub fn to_wire(&self) -> (r: Vec<u8>)
        ensures
            r@ == seq![self.commanded.spec_index() as u8, self.actual.spec_index() as u8],
            r@.len() <= COMPOSITE_VALVE_STATE_WIRE_MAX_SIZE,
    {
        let mut r = to_wire(&self.commanded);
        let mut rest = to_wire(&self.actual);
        r.append(&mut rest);
        proof {
            assert(r@ =~= seq![self.commanded.spec_index() as u8, self.actual.spec_index() as u8]);
        }
        r
    }

    /// Decodes a composite valve state from the front of wire bytes: the
    /// commanded state, then the actual state from the bytes after its one.
    pub fn from_wire(b: &[u8]) -> (r: Result<CompositeValveState, WireError>)
        ensures
            b@.len() == 0 ==> r is Err && r->Err_0 is Postcard,
            b@.len() > 0 && b@[0] < 128 ==> match ValveState::spec_from_index(b@[0] as u32) {
                None => r == Err::<CompositeValveState, WireError>(
                    WireError::UnknownVariant(b@[0] as u32),
                ),
                Some(c) => match postcard_u32_value(b@.subrange(1, b@.len() as int)) {
                    None => r is Err && r->Err_0 is Postcard,
                    Some(i) => match ValveState::spec_from_index(i) {
                        None => r == Err::<CompositeValveState, WireError>(
                            WireError::UnknownVariant(i),
                        ),
                        Some(a) => r == Ok::<CompositeValveState, WireError>(
                            CompositeValveState { commanded: c, actual: a },
                        ),
                    },
                },
            },
            b@.len() >= 2 && b@[0] < 128 && b@[1] < 128 ==> match (
                ValveState::spec_from_index(b@[0] as u32),
                ValveState::spec_from_index(b@[1] as u32),
            ) {
                (Some(c), Some(a)) => r == Ok::<CompositeValveState, WireError>(
                    CompositeValveState { commanded: c, actual: a },
                ),
                _ => r is Err && r->Err_0 is UnknownVariant,
            },
    {
        let commanded = match from_wire::<ValveState>(b) {
            Ok(v) => v,
            Err(e) => {
                return Err(e);
            },
        };
        let rest = vstd::slice::slice_subrange(b, 1, b.len());
        match from_wire::<ValveState>(rest) {
            Ok(actual) => Ok(CompositeValveState { commanded, actual }),
            Err(e) => Err(e),
        }
    }
}

/// Encoding a composite valve state on the wire and decoding its bytes gives
/// the state back.
pub proof fn lemma_composite_wire_round_trip(s: CompositeValveState)
    ensures
        (s.commanded.spec_index() as u8) < 128,
        (s.actual.spec_index() as u8) < 128,
        ValveState::spec_from_index((s.commanded.spec_index() as u8) as u32) == Some(s.commanded),
        ValveState::spec_from_index((s.actual.spec_index() as u8) as u32) == Some(s.actual),
{
    s.commanded.lemma_variant();
    s.actual.lemma_variant();
}

} // verus!
