use vstd::prelude::*;

verus! {

broadcast use vstd::string::to_string_from_display_ensures_for_str;

/// The failure kinds the injection protocol can surface. Each carries the
/// raw OS error code reported by the underlying kernel facility, or 0 when
/// no such code applies.
#[derive(Clone, Copy, Debug, PartialEq, Eq, Structural)]
pub enum InjectorError {
    /// The target process could not be resolved at construction time.
    CanNotCreate(i32),
    /// The tracing facility refused to attach to the target.
    CanNotAttach(i32),
    /// The tracing relationship could not be released.
    CanNotDetach(i32),
    /// The stopped target could not be resumed.
    CanNotCont(i32),
    /// The target's register set could not be read.
    CanNotGetRegister(i32),
    /// The target's register set could not be written.
    CanNotSetRegister(i32),
    /// The target's memory mapping list could not be read.
    CanNotGetMemoryMap(i32),
    /// Writing the payload into the target's memory failed.
    CanNotInjectCode(i32),
}

impl InjectorError {
    /// The diagnostic line that belongs to each failure kind.
    pub open spec fn spec_message(self) -> Seq<char> {
        match self {
            InjectorError::CanNotCreate(_) => "Can't create Injector object (maybe invalid pid)"@,
            InjectorError::CanNotAttach(_) => "Can't attach the process."@,
            InjectorError::CanNotDetach(_) => "Can't detach the process."@,
            InjectorError::CanNotCont(_) => "Can't continue the process."@,
            InjectorError::CanNotGetRegister(_) => "Can't get register from the process."@,
            InjectorError::CanNotSetRegister(_) => "Can't set register to the process."@,
            InjectorError::CanNotGetMemoryMap(_) => "Can't get the process memory mapping."@,
            InjectorError::CanNotInjectCode(_) => "Can't inject to the process."@,
        }
    }

    /// The diagnostic text describing this failure kind to the operator.
    pub fn message(&self) -> (r: String)
        ensures
            r@ == self.spec_message(),
    {
        match self {
            InjectorError::CanNotCreate(_) => "Can't create Injector object (maybe invalid pid)"
                .to_string(),
            InjectorError::CanNotAttach(_) => "Can't attach the process.".to_string(),
            InjectorError::CanNotDetach(_) => "Can't detach the process.".to_string(),
            InjectorError::CanNotCont(_) => "Can't continue the process.".to_string(),
            InjectorError::CanNotGetRegister(_) => "Can't get register from the process."
                .to_string(),
            InjectorError::CanNotSetRegister(_) => "Can't set register to the process."
                .to_string(),
            InjectorError::CanNotGetMemoryMap(_) => "Can't get the process memory mapping."
                .to_string(),
            InjectorError::CanNotInjectCode(_) => "Can't inject to the process.".to_string(),
        }
    }

    /// The raw OS error code this failure carries, 0 when none applied.
    pub fn code(&self) -> (c: i32)
        ensures
            *self matches InjectorError::CanNotCreate(x) ==> c == x,
            *self matches InjectorError::CanNotAttach(x) ==> c == x,
            *self matches InjectorError::CanNotDetach(x) ==> c == x,
            *self matches InjectorError::CanNotCont(x) ==> c == x,
            *self matches InjectorError::CanNotGetRegister(x) ==> c == x,
            *self matches InjectorError::CanNotSetRegister(x) ==> c == x,
            *self matches InjectorError::CanNotGetMemoryMap(x) ==> c == x,
            *self matches InjectorError::CanNotInjectCode(x) ==> c == x,
    {
        match self {
            InjectorError::CanNotCreate(c) => *c,
            InjectorError::CanNotAttach(c) => *c,
            InjectorError::CanNotDetach(c) => *c,
            InjectorError::CanNotCont(c) => *c,
            InjectorError::CanNotGetRegister(c) => *c,
            InjectorError::CanNotSetRegister(c) => *c,
            InjectorError::CanNotGetMemoryMap(c) => *c,
            InjectorError::CanNotInjectCode(c) => *c,
        }
    }
}

} // verus!
