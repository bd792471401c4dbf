use vstd::prelude::*;

verus! {

/// What the build was made for: the target platform and the switch that
/// forces the simulation even where the native subsystem exists.
#[derive(Clone, Copy, Debug, PartialEq, Eq, Structural)]
pub struct BuildConfig {
    pub target_macos: bool,
    pub force_simulation: bool,
}

/// Which implementation of the sensor entry points a build uses.
#[derive(Clone, Copy, Debug, PartialEq, Eq, Structural)]
pub enum BindingKind {
    Native,
    Simulated,
}

pub open spec fn binding_for(cfg: BuildConfig) -> BindingKind {
    if cfg.target_macos && !cfg.force_simulation {
        BindingKind::Native
    } else {
        BindingKind::Simulated
    }
}

pub open spec fn available_for(cfg: BuildConfig) -> bool {
    cfg.target_macos
}

/// Selects the binding once, from the build configuration.
pub fn select_binding(cfg: BuildConfig) -> (r: BindingKind)
    ensures
        r == binding_for(cfg),
{
    if cfg.target_macos && !cfg.force_simulation {
        BindingKind::Native
    } else {
        BindingKind::Simulated
    }
}

/// Whether the health subsystem exists on the platform the build targets.
pub fn healthkit_is_available(cfg: BuildConfig) -> (r: bool)
    ensures
        r == available_for(cfg),
{
    cfg.target_macos
}

/// Availability depends on the build configuration alone: two queries made
/// with the same configuration give the same answer.
pub proof fn availability_is_stable(cfg: BuildConfig, first: bool, second: bool)
    requires
        call_ensures(healthkit_is_available, (cfg,), first),
        call_ensures(healthkit_is_available, (cfg,), second),
    ensures
        first == second,
{
}

} // verus!
