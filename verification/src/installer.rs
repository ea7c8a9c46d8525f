//! The installer driver: the state machine that walks one run from held
//! bytecode to an invoked procedure.
//!
//! The driver decides; it never crosses the foreign boundary itself. It
//! hands out the exact values each foreign entry point must receive — the
//! compile request, then the invoke request — and is told what came back.
//! A compile that yields no handle is fatal for the run: the driver locks
//! into a failed state from which no invoke request can ever be obtained.

use vstd::prelude::*;

use vstd::slice::slice_to_vec;
use vstd::utf8::encode_utf8;

use crate::ansistring::PascalAnsiString;
use crate::array::PascalDynamicArray;
use crate::codec::DEFAULT_CODEPAGE;
use crate::tpsexec::PascalTPSExec;
use crate::tsetupstep::TSetupStep;
use crate::UNSHARED_REFERENCE_COUNT;

verus! {

/// Where one run stands. A run only ever moves forward; `CompileFailed`
/// is terminal, like `Done`.
#[derive(Clone, Copy, PartialEq, Eq, Structural, Debug)]
pub enum DriverPhase {
    Idle,
    BytecodeLoaded,
    ContextCompiled,
    ProcedureInvoked,
    Done,
    CompileFailed,
}

/// A driver failure; terminal for the run, like every failure here.
#[derive(Clone, Copy, PartialEq, Eq, Structural, Debug)]
pub enum DriverError {
    /// The operation does not belong to the run's current phase.
    OutOfPhase,
    /// The foreign compile step produced no usable handle.
    CompileFailed,
}

impl DriverError {
    /// The failure named, for the process's abort message.
    pub fn describe(&self) -> (r: &'static str)
        ensures
            self is OutOfPhase ==> r@ == "operation out of phase for this run"@,
            self is CompileFailed ==> r@ == "foreign compile produced no execution context"@,
    {
        match self {
            DriverError::OutOfPhase => "operation out of phase for this run",
            DriverError::CompileFailed => "foreign compile produced no execution context",
        }
    }
}

/// The name of the procedure the runtime's script is invoked through:
/// the step-change notification procedure.
pub open spec fn step_change_procedure() -> Seq<char> {
    "CURSTEPCHANGED"@
}

/// Everything the foreign "invoke" entry point must receive: the compiled
/// context, a one-element array holding the install step, and the string
/// naming the procedure.
pub struct InvokeRequest {
    pub context: PascalTPSExec,
    pub params: PascalDynamicArray<TSetupStep>,
    pub proc_name: PascalAnsiString,
}

/// One installation run. The held bytecode and the compiled context move
/// with the phase: bytecode arrives on loading, the context on a
/// successful compile.
pub struct InstallerDriver {
    phase: DriverPhase,
    bytecode: Vec<u8>,
    context: Option<PascalTPSExec>,
}

impl InstallerDriver {
    /// The run's phase.
    pub closed spec fn spec_phase(self) -> DriverPhase {
        self.phase
    }

    /// The bytecode held for this run.
    pub closed spec fn spec_bytecode(self) -> Seq<u8> {
        self.bytecode@
    }

    /// The compiled execution context, once one arrived.
    pub closed spec fn spec_context(self) -> Option<PascalTPSExec> {
        self.context
    }

    /// Once the run reports a compiled context, it holds one.
    pub open spec fn wf(self) -> bool {
        self.spec_phase() is ContextCompiled ==> self.spec_context() is Some
    }

    /// A fresh run, before any bytecode is held.
    pub fn new() -> (r: InstallerDriver)
        ensures
            r.wf(),
            r.spec_phase() is Idle,
    {
        InstallerDriver { phase: DriverPhase::Idle, bytecode: Vec::new(), context: None }
    }

    /// The run's phase.
    pub fn phase(&self) -> (r: DriverPhase)
        ensures
            r == self.spec_phase(),
    {
        self.phase
    }

    /// Takes the raw bytecode an external collaborator resolved, moving
    /// the run from idle to holding bytecode. Out of any other phase the
    /// run is left untouched and the call fails.
    pub fn load_bytecode(&mut self, bytes: Vec<u8>) -> (r: Result<(), DriverError>)
        requires
            old(self).wf(),
        ensures
            final(self).wf(),
            old(self).spec_phase() is Idle ==> {
                &&& r is Ok
                &&& final(self).spec_phase() is BytecodeLoaded
                &&& final(self).spec_bytecode() == bytes@
            },
            !(old(self).spec_phase() is Idle) ==> r == Err::<(), DriverError>(
                DriverError::OutOfPhase,
            ) && *final(self) == *old(self),
    {
        match self.phase {
            DriverPhase::Idle => {
                self.bytecode = bytes;
                self.phase = DriverPhase::BytecodeLoaded;
                Ok(())
            },
            _ => Err(DriverError::OutOfPhase),
        }
    }

    /// Builds the value the foreign "compile" entry point must receive:
    /// the held bytecode wrapped as a foreign string — terminator
    /// appended, default code-page tag, character width 1, reference
    /// count `-1`. Only a run holding bytecode can be asked for it.
    pub fn compile_request(&self) -> (r: Result<PascalAnsiString, DriverError>)
        requires
            self.wf(),
        ensures
            self.spec_phase() is BytecodeLoaded ==> (r matches Ok(s) && {
                &&& s.wf()
                &&& s.spec_codepage() == DEFAULT_CODEPAGE
                &&& s.spec_char_size() == 1
                &&& s.spec_reference_count() == UNSHARED_REFERENCE_COUNT as int
                &&& s.buffer() == self.spec_bytecode().push(0u8)
                &&& s.spec_size() == self.spec_bytecode().len() + 1
            }),
            !(self.spec_phase() is BytecodeLoaded) ==> r == Err::<PascalAnsiString, DriverError>(
                DriverError::OutOfPhase,
            ),
    {
        match self.phase {
            DriverPhase::BytecodeLoaded => {
                let bytes = slice_to_vec(self.bytecode.as_slice());
                match PascalAnsiString::from_bytes(bytes) {
                    Ok(s) => Ok(s),
                    Err(_) => Err(DriverError::OutOfPhase),
                }
            },
            _ => Err(DriverError::OutOfPhase),
        }
    }

    /// Records what the foreign compile step produced. A handle moves the
    /// run to the compiled phase; no handle is a fatal compile failure,
    /// reported at once, and the run locks into the failed phase so that
    /// no invoke request can follow.
    pub fn accept_context(&mut self, context: Option<PascalTPSExec>) -> (r: Result<
        (),
        DriverError,
    >)
        requires
            old(self).wf(),
        ensures
            final(self).wf(),
            old(self).spec_phase() is BytecodeLoaded && context is Some ==> {
                &&& r is Ok
                &&& final(self).spec_phase() is ContextCompiled
                &&& final(self).spec_context() == context
                &&& final(self).spec_bytecode() == old(self).spec_bytecode()
            },
            old(self).spec_phase() is BytecodeLoaded && context is None ==> {
                &&& r == Err::<(), DriverError>(DriverError::CompileFailed)
                &&& final(self).spec_phase() is CompileFailed
            },
            !(old(self).spec_phase() is BytecodeLoaded) ==> r == Err::<(), DriverError>(
                DriverError::OutOfPhase,
            ) && *final(self) == *old(self),
    {
        match self.phase {
            DriverPhase::BytecodeLoaded => {
                match context {
                    Some(ctx) => {
                        self.context = Some(ctx);
                        self.phase = DriverPhase::ContextCompiled;
                        Ok(())
                    },
                    None => {
                        self.phase = DriverPhase::CompileFailed;
                        Err(DriverError::CompileFailed)
                    },
                }
            },
            _ => Err(DriverError::OutOfPhase),
        }
    }

    /// Builds everything the foreign "invoke" entry point must receive:
    /// the compiled context, a one-element array holding the install
    /// step, and the step-change procedure's name as a foreign string.
    /// Only a run with a compiled context can be asked for it; in
    /// particular, after a failed compile this always fails, so a failed
    /// run can never reach the invoke step.
    pub fn invoke_request(&self) -> (r: Result<InvokeRequest, DriverError>)
        requires
            self.wf(),
        ensures
            self.spec_phase() is ContextCompiled ==> (r matches Ok(req) && {
                &&& req.context == self.spec_context()->0
                &&& req.params.wf()
                &&& req.params.elems() == seq![TSetupStep::ssInstall]
                &&& req.proc_name.wf()
                &&& req.proc_name.spec_codepage() == DEFAULT_CODEPAGE
                &&& req.proc_name.spec_char_size() == 1
                &&& req.proc_name.spec_reference_count() == UNSHARED_REFERENCE_COUNT as int
                &&& req.proc_name.buffer() == encode_utf8(step_change_procedure()).push(0u8)
            }),
            self.spec_phase() is CompileFailed ==> r == Err::<InvokeRequest, DriverError>(
                DriverError::CompileFailed,
            ),
            !(self.spec_phase() is ContextCompiled || self.spec_phase() is CompileFailed)
                ==> r == Err::<InvokeRequest, DriverError>(DriverError::OutOfPhase),
    {
        match self.phase {
            DriverPhase::ContextCompiled => {
                let context = match &self.context {
                    Some(ctx) => *ctx,
                    None => {
                        return Err(DriverError::OutOfPhase);
                    },
                };
                let mut params: PascalDynamicArray<TSetupStep> = PascalDynamicArray::new();
                params.append(TSetupStep::ssInstall);
                let proc_name = match PascalAnsiString::from_text("CURSTEPCHANGED") {
                    Ok(s) => s,
                    Err(_) => {
                        return Err(DriverError::OutOfPhase);
                    },
                };
                proof {
                    assert(params.elems() =~= seq![TSetupStep::ssInstall]);
                }
                Ok(InvokeRequest { context, params, proc_name })
            },
            DriverPhase::CompileFailed => Err(DriverError::CompileFailed),
            _ => Err(DriverError::OutOfPhase),
        }
    }

    /// Records that the foreign invoke call returned. Its result value is
    /// acknowledged but not consumed: the general-purpose value type has
    /// no concrete encoding here.
    pub fn note_invoked(&mut self) -> (r: Result<(), DriverError>)
        requires
            old(self).wf(),
        ensures
            final(self).wf(),
            old(self).spec_phase() is ContextCompiled ==> r is Ok && final(self).spec_phase()
                is ProcedureInvoked,
            !(old(self).spec_phase() is ContextCompiled) ==> r == Err::<(), DriverError>(
                DriverError::OutOfPhase,
            ) && *final(self) == *old(self),
    {
        match self.phase {
            DriverPhase::ContextCompiled => {
                self.phase = DriverPhase::ProcedureInvoked;
                Ok(())
            },
            _ => Err(DriverError::OutOfPhase),
        }
    }

    /// Closes the run: the terminal phase after the procedure ran.
    pub fn finish(&mut self) -> (r: Result<(), DriverError>)
        requires
            old(self).wf(),
        ensures
            final(self).wf(),
            old(self).spec_phase() is ProcedureInvoked ==> r is Ok && final(self).spec_phase() is Done,
            !(old(self).spec_phase() is ProcedureInvoked) ==> r == Err::<(), DriverError>(
                DriverError::OutOfPhase,
            ) && *final(self) == *old(self),
    {
        match self.phase {
            DriverPhase::ProcedureInvoked => {
                self.phase = DriverPhase::Done;
                Ok(())
            },
            _ => Err(DriverError::OutOfPhase),
        }
    }
}

} // verus!
