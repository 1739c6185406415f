//! The rules the baseline compiler's builder applies to the settings it is
//! given, and the settings it keeps for a build.
//!
//! The rest of the builder is not in this library: choosing the target,
//! setting and enabling named flags, listing the settings and describing the
//! builder all forward to the instruction-set lookup and to the optimizing
//! compiler's builder, which belong to the engine's own crates. Those crates
//! are not dependencies here; `set_tunables` takes the forwarding call as an
//! argument.
use vstd::prelude::*;

verus! {

/// The settings of the engine that the baseline compiler depends on.
#[derive(Debug, Clone, Copy, PartialEq, Eq, Structural)]
pub struct Tunables {
    /// Whether functions use the calling convention of the baseline compiler.
    pub winch_callable: bool,
    /// Whether tables are initialized lazily.
    pub table_lazy_init: bool,
    /// Whether traps are raised through signals.
    pub signals_based_traps: bool,
    /// Whether native debug information is generated.
    pub generate_native_debuginfo: bool,
}

/// Why the builder refuses a request.
#[derive(Debug, PartialEq, Eq)]
pub enum BuilderError {
    /// The settings do not select the baseline compiler's calling convention.
    WinchCallingConvention,
    /// The settings do not initialize tables lazily.
    TableLazyInit,
    /// The settings do not raise traps through signals.
    SignalsBasedTraps,
    /// The settings ask for native debug information.
    NativeDebugInfo,
    /// Incremental compilation was asked for.
    IncrementalCompilation,
    /// The optimizing compiler's builder, to which settings are passed on,
    /// refused them with this message.
    Backend(String),
}

impl BuilderError {
    /// The message that describes the error.
    pub fn message(&self) -> (s: &str)
        ensures
            s@ == (match *self {
                BuilderError::WinchCallingConvention => "Winch requires the winch calling convention"@,
                BuilderError::TableLazyInit => "Winch requires the table-lazy-init option to be enabled"@,
                BuilderError::SignalsBasedTraps => "Winch requires the signals-based-traps option to be enabled"@,
                BuilderError::NativeDebugInfo => "Winch does not currently support generating native debug information"@,
                BuilderError::IncrementalCompilation => "incremental compilation is not supported on this platform"@,
                BuilderError::Backend(m) => m@,
            }),
    {
        match self {
            BuilderError::WinchCallingConvention => "Winch requires the winch calling convention",
            BuilderError::TableLazyInit => "Winch requires the table-lazy-init option to be enabled",
            BuilderError::SignalsBasedTraps => "Winch requires the signals-based-traps option to be enabled",
            BuilderError::NativeDebugInfo => "Winch does not currently support generating native debug information",
            BuilderError::IncrementalCompilation => "incremental compilation is not supported on this platform",
            BuilderError::Backend(m) => m.as_str(),
        }
    }
}

/// The first rule that `t` breaks, in the order the builder checks them.
pub open spec fn tunables_verdict(t: Tunables) -> Result<(), BuilderError> {
    if !t.winch_callable {
        Err(BuilderError::WinchCallingConvention)
    } else if !t.table_lazy_init {
        Err(BuilderError::TableLazyInit)
    } else if !t.signals_based_traps {
        Err(BuilderError::SignalsBasedTraps)
    } else if t.generate_native_debuginfo {
        Err(BuilderError::NativeDebugInfo)
    } else {
        Ok(())
    }
}

/// Settings are accepted exactly when they select the baseline compiler's
/// calling convention, initialize tables lazily, raise traps through
/// signals and ask for no native debug information; a refusal names a rule
/// the settings break, the first one in that order.
pub proof fn lemma_tunables_verdict(t: Tunables)
    ensures
        tunables_verdict(t) is Ok <==> (t.winch_callable && t.table_lazy_init && t.signals_based_traps
            && !t.generate_native_debuginfo),
        !t.winch_callable ==> tunables_verdict(t) == Err::<(), BuilderError>(BuilderError::WinchCallingConvention),
        t.winch_callable && !t.table_lazy_init ==> tunables_verdict(t) == Err::<(), BuilderError>(BuilderError::TableLazyInit),
        t.winch_callable && t.table_lazy_init && !t.signals_based_traps ==> tunables_verdict(t)
            == Err::<(), BuilderError>(BuilderError::SignalsBasedTraps),
        t.winch_callable && t.table_lazy_init && t.signals_based_traps && t.generate_native_debuginfo
            ==> tunables_verdict(t) == Err::<(), BuilderError>(BuilderError::NativeDebugInfo),
        tunables_verdict(t) == Err::<(), BuilderError>(BuilderError::SignalsBasedTraps) ==> !t.signals_based_traps,
        tunables_verdict(t) == Err::<(), BuilderError>(BuilderError::NativeDebugInfo) ==> t.generate_native_debuginfo,
        tunables_verdict(t) == Err::<(), BuilderError>(BuilderError::TableLazyInit) ==> !t.table_lazy_init,
        tunables_verdict(t) == Err::<(), BuilderError>(BuilderError::WinchCallingConvention) ==> !t.winch_callable,
{
}

/// Check settings against what the baseline compiler supports.
pub fn check_tunables(tunables: &Tunables) -> (r: Result<(), BuilderError>)
    ensures
        r == tunables_verdict(*tunables),
{
    if !tunables.winch_callable {
        return Err(BuilderError::WinchCallingConvention);
    }
    if !tunables.table_lazy_init {
        return Err(BuilderError::TableLazyInit);
    }
    if !tunables.signals_based_traps {
        return Err(BuilderError::SignalsBasedTraps);
    }
    if tunables.generate_native_debuginfo {
        return Err(BuilderError::NativeDebugInfo);
    }
    Ok(())
}

/// What `set_tunables` answers once the settings were passed on to the
/// optimizing compiler's builder and it answered `outcome`.
pub open spec fn backend_outcome(outcome: Result<(), String>) -> Result<(), BuilderError> {
    match outcome {
        Ok(()) => Ok(()),
        Err(message) => Err(BuilderError::Backend(message)),
    }
}

/// The settings a builder has accepted so far: the engine settings and the
/// information a build restores from, of type `R`.
pub struct BuilderSettings<R> {
    /// The accepted engine settings, once some are.
    pub tunables: Option<Tunables>,
    /// The restore information, once some is given.
    pub restore_info: Option<R>,
}

impl<R> BuilderSettings<R> {
    /// No settings accepted yet.
    pub fn new() -> (s: Self)
        ensures
            s.tunables is None,
            s.restore_info is None,
    {
        BuilderSettings { tunables: None, restore_info: None }
    }

    /// Accept `tunables` where the baseline compiler supports them, and then
    /// pass them on with `pass_on` to the optimizing compiler's builder,
    /// whose refusal is reported. Where they are not supported, nothing
    /// changes and `pass_on` is not called.
    pub fn set_tunables<F: FnOnce(Tunables) -> Result<(), String>>(
        &mut self,
        tunables: Tunables,
        pass_on: F,
    ) -> (r: Result<(), BuilderError>)
        requires
            call_requires(pass_on, (tunables,)),
        ensures
            final(self).restore_info == old(self).restore_info,
            tunables_verdict(tunables) is Err ==> r == tunables_verdict(tunables)
                && final(self).tunables == old(self).tunables,
            tunables_verdict(tunables) is Ok ==> final(self).tunables == Some(tunables) && exists|
                outcome: Result<(), String>,
            | call_ensures(pass_on, (tunables,), outcome) && r == backend_outcome(outcome),
    {
        match check_tunables(&tunables) {
            Ok(()) => {
                self.tunables = Some(tunables);
                let outcome = pass_on(tunables);
                let ghost answered = outcome;
                let r = match outcome {
                    Ok(()) => Ok(()),
                    Err(message) => Err(BuilderError::Backend(message)),
                };
                assert(r == backend_outcome(answered));
                r
            },
            Err(e) => Err(e),
        }
    }

    /// Keep the information a build restores from.
    pub fn set_restore_info(&mut self, info: R) -> (r: Result<(), BuilderError>)
        ensures
            r is Ok,
            final(self).restore_info == Some(info),
            final(self).tunables == old(self).tunables,
    {
        self.restore_info = Some(info);
        Ok(())
    }

    /// The settings a build uses; a build needs settings.
    pub fn tunables_for_build(&self) -> (t: Tunables)
        requires
            self.tunables is Some,
        ensures
            self.tunables == Some(t),
    {
        match self.tunables {
            Some(t) => t,
            None => unreached(),
        }
    }

    /// Incremental compilation is not supported by the baseline compiler.
    pub fn enable_incremental_compilation(&mut self) -> (r: Result<(), BuilderError>)
        ensures
            r == Err::<(), BuilderError>(BuilderError::IncrementalCompilation),
            final(self).tunables == old(self).tunables,
            final(self).restore_info == old(self).restore_info,
    {
        Err(BuilderError::IncrementalCompilation)
    }
}

} // verus!
