//! The congestion-control strategies that the server can be set to.

use crate::error::{ConfigError, Fault};
use crate::text::{eq_ignore_ascii_case, same_ignoring_case};
use vstd::prelude::*;

verus! {

/// The congestion-control strategy of the transport.
#[derive(Clone, Copy, Debug, PartialEq, Eq, Structural)]
pub enum CongestionController {
    Cubic,
    NewReno,
    Bbr,
}

/// The controller that `name` names, whatever the case of its letters:
/// `cubic`, `new_reno` or `newreno`, `bbr`.
pub open spec fn controller_named(name: Seq<char>) -> Option<CongestionController> {
    if same_ignoring_case(name, "cubic"@) {
        Some(CongestionController::Cubic)
    } else if same_ignoring_case(name, "new_reno"@) || same_ignoring_case(name, "newreno"@) {
        Some(CongestionController::NewReno)
    } else if same_ignoring_case(name, "bbr"@) {
        Some(CongestionController::Bbr)
    } else {
        None
    }
}

impl CongestionController {
    /// Reads the name of a congestion controller.
    pub fn from_str(name: &str) -> (controller: Result<CongestionController, ConfigError>)
        ensures
            match controller {
                Ok(c) => controller_named(name@) == Some(c),
                Err(error) => controller_named(name@) is None && error@
                    == Fault::InvalidCongestionController,
            },
    {
        if eq_ignore_ascii_case(name, "cubic") {
            Ok(CongestionController::Cubic)
        } else if eq_ignore_ascii_case(name, "new_reno") || eq_ignore_ascii_case(name, "newreno") {
            Ok(CongestionController::NewReno)
        } else if eq_ignore_ascii_case(name, "bbr") {
            Ok(CongestionController::Bbr)
        } else {
            Err(ConfigError::InvalidCongestionController)
        }
    }
}

/// The case of its letters does not change what a name names.
pub proof fn lemma_controller_ignores_case(a: Seq<char>, b: Seq<char>)
    requires
        same_ignoring_case(a, b),
    ensures
        controller_named(a) == controller_named(b),
{
}

/// A name that is none of the four, whatever the case of its letters, names
/// no controller.
pub proof fn lemma_unknown_controller(name: Seq<char>)
    requires
        !same_ignoring_case(name, "cubic"@),
        !same_ignoring_case(name, "new_reno"@),
        !same_ignoring_case(name, "newreno"@),
        !same_ignoring_case(name, "bbr"@),
    ensures
        controller_named(name) is None,
{
}

} // verus!
