//! Solver configuration, threaded explicitly into every tick.

use vstd::prelude::*;

use crate::vec3::{Vec3x};
use crate::fx::SCALE;
use crate::SimError;

verus! {

/// The available integration schemes.
#[derive(Clone, Copy, PartialEq, Eq, Structural, Debug)]
pub enum IntergrationMethod {
    EulerMethod,
}

/// Tunable solver parameters, read each tick.
#[derive(Clone, Copy, PartialEq, Eq, Structural, Debug)]
pub struct SettingsResource {
    /// Which integration scheme the tick uses.
    pub method: IntergrationMethod,
    /// Inner iterations of the integrator per tick.
    pub integration_substeps: usize,
    /// Inner iterations of every impulse solver per tick.
    pub constraints_substeps: usize,
    /// Baumgarte stabilization gain.
    pub baumgarte_constant: i64,
    /// Gravitational acceleration.
    pub gravity_vector: Vec3x,
    /// Time-dilation divisor; one for real time.
    pub slow_motion_koef: i64,
    /// Whether the host should display the energy total.
    pub print_energy_in_console: bool,
}

/// A configuration the kernel accepts: at least one substep of each kind,
/// no time acceleration, and a non-negative stabilization gain.
pub open spec fn settings_wf(s: SettingsResource) -> bool {
    &&& s.integration_substeps >= 1
    &&& s.constraints_substeps >= 1
    &&& s.slow_motion_koef >= SCALE
    &&& s.baumgarte_constant >= 0
}

/// The configuration `SettingsResource::default` builds.
pub open spec fn default_settings_s() -> SettingsResource {
    SettingsResource {
        method: IntergrationMethod::EulerMethod,
        integration_substeps: 8,
        constraints_substeps: 16,
        baumgarte_constant: 100_000,
        gravity_vector: Vec3x { x: 0, y: -9_810_000 as i64, z: 0 },
        slow_motion_koef: SCALE as i64,
        print_energy_in_console: false,
    }
}

impl SettingsResource {
    /// Builds a configuration, refusing one that is out of range; this is
    /// the only place a bad configuration is caught, so the solve loops
    /// never see one.
    pub fn new(
        method: IntergrationMethod,
        integration_substeps: usize,
        constraints_substeps: usize,
        baumgarte_constant: i64,
        gravity_vector: Vec3x,
        slow_motion_koef: i64,
        print_energy_in_console: bool,
    ) -> (r: Result<SettingsResource, SimError>)
        ensures
            r is Ok <==> settings_wf(
                SettingsResource {
                    method,
                    integration_substeps,
                    constraints_substeps,
                    baumgarte_constant,
                    gravity_vector,
                    slow_motion_koef,
                    print_energy_in_console,
                },
            ),
            r is Err ==> r->Err_0 == SimError::InvalidConfiguration,
            r is Ok ==> r->Ok_0 == (SettingsResource {
                method,
                integration_substeps,
                constraints_substeps,
                baumgarte_constant,
                gravity_vector,
                slow_motion_koef,
                print_energy_in_console,
            }),
    {
        if integration_substeps >= 1 && constraints_substeps >= 1 && slow_motion_koef >= SCALE
            && baumgarte_constant >= 0 {
            Ok(
                SettingsResource {
                    method,
                    integration_substeps,
                    constraints_substeps,
                    baumgarte_constant,
                    gravity_vector,
                    slow_motion_koef,
                    print_energy_in_console,
                },
            )
        } else {
            Err(SimError::InvalidConfiguration)
        }
    }
}

impl Default for SettingsResource {
    /// Eight integration substeps, sixteen constraint substeps, a
    /// stabilization gain of one tenth, standard gravity along the
    /// downward axis, and real-time playback.
    fn default() -> (r: SettingsResource)
        ensures
            r == default_settings_s(),
            settings_wf(r),
    {
        SettingsResource {
            method: IntergrationMethod::EulerMethod,
            integration_substeps: 8,
            constraints_substeps: 16,
            baumgarte_constant: 100_000,
            gravity_vector: Vec3x { x: 0, y: -9_810_000, z: 0 },
            slow_motion_koef: SCALE,
            print_energy_in_console: false,
        }
    }
}

} // verus!
