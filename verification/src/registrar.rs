use vstd::prelude::*;

use crate::errors::FatalError;

verus! {

// Class-style bits of the host windowing subsystem, as its headers define
// them: redraw fully on vertical and horizontal resize, own device context.
pub const CS_VREDRAW: u32 = 0x0001;
pub const CS_HREDRAW: u32 = 0x0002;
pub const CS_OWNDC: u32 = 0x0020;

/// The style the window class is registered with: full redraw on every
/// horizontal or vertical resize, and a device context of the class's own.
pub open spec fn spec_class_style() -> u32 {
    CS_HREDRAW | CS_VREDRAW | CS_OWNDC
}

/// The class style handed to the host at registration.
pub fn class_style() -> (s: u32)
    ensures
        s == spec_class_style(),
{
    CS_HREDRAW | CS_VREDRAW | CS_OWNDC
}

/// The fixed class and window name.
pub open spec fn spec_class_name() -> Seq<char> {
    "Dariush"@
}

/// The fixed class and window name, as the surrounding program titles the
/// surface with it.
pub fn class_name() -> (s: &'static str)
    ensures
        s@ == spec_class_name(),
{
    "Dariush"
}

/// The class name encoded for the host: one wide (16-bit) unit per character,
/// closed by a terminating nul.
pub open spec fn spec_wide_class_name() -> Seq<u16> {
    seq![0x44u16, 0x61u16, 0x72u16, 0x69u16, 0x75u16, 0x73u16, 0x68u16, 0u16]
}

/// Encode the class name as the nul-terminated wide string the host's
/// class-registration and surface-creation calls expect.
pub fn wide_class_name() -> (v: Vec<u16>)
    ensures
        v@ == spec_wide_class_name(),
        v@.len() == spec_class_name().len() + 1,
        v@[v@.len() - 1] == 0,
        forall|i: int| 0 <= i < spec_class_name().len() ==> v@[i] == spec_class_name()[i] as u16,
{
    let mut v: Vec<u16> = Vec::new();
    v.push(0x44);
    v.push(0x61);
    v.push(0x72);
    v.push(0x69);
    v.push(0x75);
    v.push(0x73);
    v.push(0x68);
    v.push(0);
    proof {
        reveal_strlit("Dariush");
        assert(v@ =~= spec_wide_class_name());
    }
    v
}

/// Tells the host's answer to a registration request apart: the host returns
/// a class atom, and zero means the registration failed.
#[derive(Clone, Copy, Debug, PartialEq, Eq, Structural)]
pub enum Registration {
    /// The class was registered by this call.
    Registered,
    /// The class had already been registered in this process; the call
    /// changed nothing.
    AlreadyRegistered,
}

/// Tracks whether the window class has been registered in this process.
/// Registration is a global, process-wide operation: it must happen exactly
/// once, before the surface is created.
#[derive(Clone, Copy, Debug, PartialEq, Eq, Structural)]
pub struct Registrar {
    pub registered: bool,
}

/// The registrar's state after one registration step with the host's answer
/// `class_atom`: a second step never disturbs an existing registration.
pub open spec fn register_after(s: Registrar, class_atom: u16) -> Registrar {
    if s.registered {
        s
    } else if class_atom != 0 {
        Registrar { registered: true }
    } else {
        s
    }
}

/// What one registration step reports: already registered, newly registered,
/// or the fatal registration failure.
pub open spec fn register_result(s: Registrar, class_atom: u16) -> Result<
    Registration,
    FatalError,
> {
    if s.registered {
        Ok(Registration::AlreadyRegistered)
    } else if class_atom != 0 {
        Ok(Registration::Registered)
    } else {
        Err(FatalError::ClassRegistration)
    }
}

impl Registrar {
    /// A fresh process: nothing registered yet.
    pub fn new() -> (r: Registrar)
        ensures
            !r.registered,
    {
        Registrar { registered: false }
    }

    /// Record the host's answer to a class-registration request. `class_atom`
    /// is the atom the host returned; zero means the host refused, which is
    /// fatal — the surface cannot be created without the class. If the class
    /// is already registered the step is a no-op, whatever the host would
    /// have answered.
    pub fn register(&mut self, class_atom: u16) -> (r: Result<Registration, FatalError>)
        ensures
            *final(self) == register_after(*old(self), class_atom),
            r == register_result(*old(self), class_atom),
    {
        if self.registered {
            Ok(Registration::AlreadyRegistered)
        } else if class_atom != 0 {
            self.registered = true;
            Ok(Registration::Registered)
        } else {
            Err(FatalError::ClassRegistration)
        }
    }
}

/// After a successful registration, a second
/// registration step is a no-op — the state is untouched and the caller is
/// told the class is already registered — whatever the host would answer the
/// second time. A failed second step cannot corrupt the first registration.
pub proof fn lemma_single_registration(first_atom: u16, second_atom: u16)
    requires
        first_atom != 0,
    ensures
        ({
            let fresh = Registrar { registered: false };
            let once = register_after(fresh, first_atom);
            &&& register_after(once, second_atom) == once
            &&& register_result(once, second_atom) == Ok::<Registration, FatalError>(
                Registration::AlreadyRegistered,
            )
        }),
{
}

} // verus!
