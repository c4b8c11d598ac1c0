use vstd::prelude::*;

verus! {

/// The parameter a configuration constructor refused.
///
/// Every entry point that builds a spring configuration validates its
/// parameters in a fixed order and reports the first one that is out of range.
#[derive(Debug, Clone, Copy, PartialEq, Eq, Structural)]
pub enum ConfigError {
    /// A duration must be finite and greater than zero.
    Duration,
    /// A bounce must be finite and lie in `-1.0..1.0`.
    Bounce,
    /// A response must be finite and greater than zero.
    Response,
    /// A damping ratio must be finite and greater than zero.
    DampingRatio,
    /// A mass must be finite and greater than zero.
    Mass,
    /// A stiffness must be finite and greater than zero.
    Stiffness,
    /// A damping coefficient must be finite and greater than zero.
    Damping,
}

impl ConfigError {
    /// The message a constructor panics with when it refuses this parameter.
    pub fn message(self) -> (text: &'static str)
        ensures
            self == ConfigError::Duration ==> text@
                == "spring duration must be finite and greater than zero"@,
            self == ConfigError::Bounce ==> text@
                == "spring bounce must be in -1.0..1.0; a bounce of 1.0 is an undamped spring, which oscillates for ever and never settles"@,
            self == ConfigError::Response ==> text@
                == "spring response must be finite and greater than zero"@,
            self == ConfigError::DampingRatio ==> text@
                == "spring damping ratio must be finite and greater than zero; a ratio of zero is an undamped spring, which oscillates for ever and never settles"@,
            self == ConfigError::Mass ==> text@
                == "spring mass must be finite and greater than zero"@,
            self == ConfigError::Stiffness ==> text@
                == "spring stiffness must be finite and greater than zero"@,
            self == ConfigError::Damping ==> text@
                == "spring damping must be finite and greater than zero; zero damping is an undamped spring, which oscillates for ever and never settles"@,
    {
        match self {
            ConfigError::Duration => "spring duration must be finite and greater than zero",
            ConfigError::Bounce => "spring bounce must be in -1.0..1.0; a bounce of 1.0 is an undamped spring, which oscillates for ever and never settles",
            ConfigError::Response => "spring response must be finite and greater than zero",
            ConfigError::DampingRatio => "spring damping ratio must be finite and greater than zero; a ratio of zero is an undamped spring, which oscillates for ever and never settles",
            ConfigError::Mass => "spring mass must be finite and greater than zero",
            ConfigError::Stiffness => "spring stiffness must be finite and greater than zero",
            ConfigError::Damping => "spring damping must be finite and greater than zero; zero damping is an undamped spring, which oscillates for ever and never settles",
        }
    }
}

/// The outcome of one parameter's range check, and the error it stands for.
#[derive(Debug, Clone, Copy, PartialEq, Eq, Structural)]
pub struct ParameterCheck {
    pub accepted: bool,
    pub error: ConfigError,
}

/// Whether `i` is the index of the first refused check.
pub open spec fn is_first_rejected(checks: Seq<ParameterCheck>, i: int) -> bool {
    &&& 0 <= i < checks.len()
    &&& !checks[i].accepted
    &&& forall|j: int| 0 <= j < i ==> #[trigger] checks[j].accepted
}

/// Reports the first refused parameter, in the order the checks are given, or
/// `None` when every parameter is in range.
pub fn first_rejection(checks: &Vec<ParameterCheck>) -> (result: Option<ConfigError>)
    ensures
        result is None <==> (forall|i: int| 0 <= i < checks@.len() ==> #[trigger] checks@[i].accepted),
        result matches Some(e) ==> exists|i: int| is_first_rejected(checks@, i) && checks@[i].error == e,
{
    let mut i: usize = 0;
    while i < checks.len()
        invariant
            i <= checks@.len(),
            forall|j: int| 0 <= j < i ==> #[trigger] checks@[j].accepted,
        decreases checks@.len() - i,
    {
        if !checks[i].accepted {
            assert(is_first_rejected(checks@, i as int));
            return Some(checks[i].error);
        }
        i = i + 1;
    }
    None
}

} // verus!
