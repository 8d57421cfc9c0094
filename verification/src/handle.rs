//! Handles, by which callers name a resource, and the binding declaration
//! that a resource is created with.

use vstd::prelude::*;
use vstd::string::StringExecFns;

verus! {

/// Names one logical resource of a registry. A handle is a plain value: it
/// owns nothing, and two handles name the same resource when their ids agree.
#[derive(Clone, Copy, PartialEq, Eq, Structural, Hash, Debug)]
pub enum ShaderBufferHandle {
    Bound { group: u32, id: u32 },
    Unbound { id: u32 },
}

impl ShaderBufferHandle {
    /// The id that the registry gave out with this handle.
    pub open spec fn spec_id(self) -> u32 {
        match self {
            ShaderBufferHandle::Bound { id, .. } => id,
            ShaderBufferHandle::Unbound { id } => id,
        }
    }

    /// The group that the handle was bound to, if any.
    pub open spec fn spec_group(self) -> Option<u32> {
        match self {
            ShaderBufferHandle::Bound { group, .. } => Some(group),
            ShaderBufferHandle::Unbound { .. } => None,
        }
    }

    #[verifier::when_used_as_spec(spec_id)]
    pub fn id(self) -> (r: u32)
        ensures
            r == self.spec_id(),
    {
        match self {
            ShaderBufferHandle::Bound { id, .. } => id,
            ShaderBufferHandle::Unbound { id } => id,
        }
    }

    #[verifier::when_used_as_spec(spec_group)]
    pub fn group(self) -> (r: Option<u32>)
        ensures
            r == self.spec_group(),
    {
        match self {
            ShaderBufferHandle::Bound { group, .. } => Some(group),
            ShaderBufferHandle::Unbound { .. } => None,
        }
    }
}

/// The character of the decimal digit `d`.
pub open spec fn digit_char(d: nat) -> char {
    if d == 0 {
        '0'
    } else if d == 1 {
        '1'
    } else if d == 2 {
        '2'
    } else if d == 3 {
        '3'
    } else if d == 4 {
        '4'
    } else if d == 5 {
        '5'
    } else if d == 6 {
        '6'
    } else if d == 7 {
        '7'
    } else if d == 8 {
        '8'
    } else {
        '9'
    }
}

/// The decimal digits of `n`, the most significant first, without leading
/// zeros.
pub open spec fn decimal_digits(n: nat) -> Seq<char>
    decreases n,
{
    if n < 10 {
        seq![digit_char(n)]
    } else {
        decimal_digits(n / 10).push(digit_char(n % 10))
    }
}

/// The text of one decimal digit.
fn digit_text(d: u32) -> (text: &'static str)
    requires
        d < 10,
    ensures
        text@ == seq![digit_char(d as nat)],
{
    proof {
        reveal_strlit("0");
        reveal_strlit("1");
        reveal_strlit("2");
        reveal_strlit("3");
        reveal_strlit("4");
        reveal_strlit("5");
        reveal_strlit("6");
        reveal_strlit("7");
        reveal_strlit("8");
        reveal_strlit("9");
    }
    let text = if d == 0 {
        "0"
    } else if d == 1 {
        "1"
    } else if d == 2 {
        "2"
    } else if d == 3 {
        "3"
    } else if d == 4 {
        "4"
    } else if d == 5 {
        "5"
    } else if d == 6 {
        "6"
    } else if d == 7 {
        "7"
    } else if d == 8 {
        "8"
    } else {
        "9"
    };
    assert(text@ =~= seq![digit_char(d as nat)]);
    text
}

/// The number `n` in decimal.
pub fn decimal(n: u32) -> (text: String)
    ensures
        text@ == decimal_digits(n as nat),
    decreases n,
{
    if n < 10 {
        String::from_str(digit_text(n))
    } else {
        let mut text = decimal(n / 10);
        text.append(digit_text(n % 10));
        assert(text@ =~= decimal_digits(n as nat));
        text
    }
}

impl ShaderBufferHandle {
    /// The handle as text, for messages: `{ group(1), id(2) }` for a bound
    /// handle, `{ id(2) }` for an unbound one.
    pub open spec fn spec_describe(self) -> Seq<char> {
        match self {
            ShaderBufferHandle::Bound { group, id } => "{ group("@ + decimal_digits(group as nat)
                + "), id("@ + decimal_digits(id as nat) + ") }"@,
            ShaderBufferHandle::Unbound { id } => "{ id("@ + decimal_digits(id as nat) + ") }"@,
        }
    }

    /// The handle as text, for messages.
    pub fn describe(&self) -> (text: String)
        ensures
            text@ == self.spec_describe(),
    {
        match self {
            ShaderBufferHandle::Bound { group, id } => {
                let mut text = String::from_str("{ group(");
                text.append(decimal(*group).as_str());
                text.append("), id(");
                text.append(decimal(*id).as_str());
                text.append(") }");
                text
            },
            ShaderBufferHandle::Unbound { id } => {
                let mut text = String::from_str("{ id(");
                text.append(decimal(*id).as_str());
                text.append(") }");
                text
            },
        }
    }
}

/// Where a new resource is bound: in one slot of a group, in no group, or
/// double-buffered in two slots of a group.
#[derive(Clone, Copy, Debug)]
pub enum Binding {
    SingleBound(u32, u32),
    SingleUnbound,
    Double(u32, (u32, u32)),
}

impl Binding {
    /// The group that the declaration names, if any.
    pub open spec fn spec_group(self) -> Option<u32> {
        match self {
            Binding::SingleBound(group, _) => Some(group),
            Binding::SingleUnbound => None,
            Binding::Double(group, _) => Some(group),
        }
    }

    #[verifier::when_used_as_spec(spec_group)]
    pub fn group(self) -> (r: Option<u32>)
        ensures
            r == self.spec_group(),
    {
        match self {
            Binding::SingleBound(group, _) => Some(group),
            Binding::SingleUnbound => None,
            Binding::Double(group, _) => Some(group),
        }
    }

    /// The handle that a resource created with this declaration gets.
    pub open spec fn spec_handle(self, id: u32) -> ShaderBufferHandle {
        match self.spec_group() {
            Some(group) => ShaderBufferHandle::Bound { group, id },
            None => ShaderBufferHandle::Unbound { id },
        }
    }

    #[verifier::when_used_as_spec(spec_handle)]
    pub fn handle(self, id: u32) -> (r: ShaderBufferHandle)
        ensures
            r == self.spec_handle(id),
    {
        match self.group() {
            Some(group) => ShaderBufferHandle::Bound { group, id },
            None => ShaderBufferHandle::Unbound { id },
        }
    }
}

/// Why the registry refused an operation.
#[derive(Clone, Copy, PartialEq, Eq, Structural, Debug)]
pub enum ShaderBufferError {
    /// The handle names no resource of the registry.
    HandleNotFound,
    /// The resource is not double-buffered.
    NotDoubleBuffered,
    /// The resource is of the wrong kind for the operation.
    InvalidBufferKind,
    /// The handle already has a staging copy.
    DuplicateStaging,
    /// The handle has no staging copy.
    MissingStaging,
    /// An image has no allocation on the GPU yet.
    MissingGpuResource,
    /// The registry has no id, or the machine no index, left for the resource.
    CapacityExceeded,
}

} // verus!
