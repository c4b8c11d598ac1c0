use vstd::prelude::*;

verus! {

/// What a spring is at one instant: where it is, where it is going, how fast
/// it moves, and the configuration and settle threshold it moves under.
///
/// `T` is the animated value, `D` its displacement and velocity, `C` the
/// configuration and `E` the settle threshold. The spring's whole state is
/// these five terms: nothing else is carried from one step to the next.
pub struct SpringModel<T, D, C, E> {
    pub value: T,
    pub target: T,
    pub velocity: D,
    pub config: C,
    pub epsilon: E,
}

impl<T, D, C, E> SpringModel<T, D, C, E> {
    /// A spring resting on `value`: its target is where it already is.
    pub open spec fn at_rest(value: T, zero: D, config: C, epsilon: E) -> Self {
        SpringModel { value, target: value, velocity: zero, config, epsilon }
    }

    pub open spec fn with_target(self, target: T) -> Self {
        SpringModel { target, ..self }
    }

    pub open spec fn with_velocity(self, velocity: D) -> Self {
        SpringModel { velocity, ..self }
    }

    pub open spec fn with_config(self, config: C) -> Self {
        SpringModel { config, ..self }
    }

    pub open spec fn with_epsilon(self, epsilon: E) -> Self {
        SpringModel { epsilon, ..self }
    }

    /// The state after a time step has been applied to it.
    pub open spec fn stepped(self, step: Step<T, D>, zero: D) -> Self {
        match step {
            Step::Skipped => self,
            Step::Moved { value, velocity, settled } => if settled {
                SpringModel { value: self.target, velocity: zero, ..self }
            } else {
                SpringModel { value, velocity, ..self }
            },
        }
    }
}

/// What one call to `advance` found, as computed by the solver.
#[derive(Debug, Clone, Copy)]
pub enum Step<T, D> {
    /// The elapsed time was zero, negative or not finite: nothing happens.
    Skipped,
    /// The solver moved the spring to `value` with `velocity`, and `settled`
    /// tells whether that new state is within the settle thresholds.
    Moved { value: T, velocity: D, settled: bool },
}

/// The state of a spring, which the solver advances.
#[derive(Debug, Clone, Copy)]
pub struct SpringState<T, D, C, E> {
    value: T,
    target: T,
    velocity: D,
    config: C,
    epsilon: E,
}

impl<T, D, C, E> View for SpringState<T, D, C, E> {
    type V = SpringModel<T, D, C, E>;

    closed spec fn view(&self) -> SpringModel<T, D, C, E> {
        SpringModel {
            value: self.value,
            target: self.target,
            velocity: self.velocity,
            config: self.config,
            epsilon: self.epsilon,
        }
    }
}

impl<T: Copy, D: Copy, C: Copy, E: Copy> SpringState<T, D, C, E> {
    /// A spring resting on `value`, with velocity `zero`.
    pub fn new(value: T, zero: D, config: C, epsilon: E) -> (spring: Self)
        ensures
            spring@ == SpringModel::at_rest(value, zero, config, epsilon),
            spring@.value == value,
            spring@.target == value,
            spring@.velocity == zero,
            spring@.config == config,
            spring@.epsilon == epsilon,
    {
        SpringState { value, target: value, velocity: zero, config, epsilon }
    }

    pub fn with_config(self, config: C) -> (spring: Self)
        ensures
            spring@ == self@.with_config(config),
            spring@.config == config,
            spring@.value == self@.value,
            spring@.target == self@.target,
            spring@.velocity == self@.velocity,
            spring@.epsilon == self@.epsilon,
    {
        SpringState { config, ..self }
    }

    pub fn with_target(self, target: T) -> (spring: Self)
        ensures
            spring@ == self@.with_target(target),
            spring@.target == target,
            spring@.value == self@.value,
            spring@.velocity == self@.velocity,
            spring@.config == self@.config,
            spring@.epsilon == self@.epsilon,
    {
        SpringState { target, ..self }
    }

    pub fn with_velocity(self, velocity: D) -> (spring: Self)
        ensures
            spring@ == self@.with_velocity(velocity),
            spring@.velocity == velocity,
            spring@.value == self@.value,
            spring@.target == self@.target,
            spring@.config == self@.config,
            spring@.epsilon == self@.epsilon,
    {
        SpringState { velocity, ..self }
    }

    pub fn with_epsilon(self, epsilon: E) -> (spring: Self)
        ensures
            spring@ == self@.with_epsilon(epsilon),
            spring@.epsilon == epsilon,
            spring@.value == self@.value,
            spring@.target == self@.target,
            spring@.velocity == self@.velocity,
            spring@.config == self@.config,
    {
        SpringState { epsilon, ..self }
    }

    pub fn value(&self) -> (value: T)
        ensures
            value == self@.value,
    {
        self.value
    }

    pub fn target(&self) -> (target: T)
        ensures
            target == self@.target,
    {
        self.target
    }

    pub fn velocity(&self) -> (velocity: D)
        ensures
            velocity == self@.velocity,
    {
        self.velocity
    }

    pub fn config(&self) -> (config: C)
        ensures
            config == self@.config,
    {
        self.config
    }

    pub fn epsilon(&self) -> (epsilon: E)
        ensures
            epsilon == self@.epsilon,
    {
        self.epsilon
    }

    /// Moves the goal posts; the value and its momentum carry across.
    pub fn set_target(&mut self, target: T)
        ensures
            final(self)@ == old(self)@.with_target(target),
            final(self)@.target == target,
            final(self)@.value == old(self)@.value,
            final(self)@.velocity == old(self)@.velocity,
            final(self)@.config == old(self)@.config,
            final(self)@.epsilon == old(self)@.epsilon,
    {
        self.target = target;
    }

    pub fn set_velocity(&mut self, velocity: D)
        ensures
            final(self)@ == old(self)@.with_velocity(velocity),
            final(self)@.velocity == velocity,
            final(self)@.value == old(self)@.value,
            final(self)@.target == old(self)@.target,
            final(self)@.config == old(self)@.config,
            final(self)@.epsilon == old(self)@.epsilon,
    {
        self.velocity = velocity;
    }

    /// Puts the spring at rest on `value`, which also becomes its target.
    pub fn snap_to(&mut self, value: T, zero: D)
        ensures
            final(self)@ == SpringModel::at_rest(value, zero, old(self)@.config, old(self)@.epsilon),
            final(self)@.value == value,
            final(self)@.target == value,
            final(self)@.velocity == zero,
            final(self)@.config == old(self)@.config,
            final(self)@.epsilon == old(self)@.epsilon,
    {
        self.value = value;
        self.target = value;
        self.velocity = zero;
    }

    /// Applies what the solver found for one call to `advance`: a skipped
    /// step changes nothing, a settled one snaps the spring onto its target at
    /// rest, any other takes the solver's value and velocity.
    pub fn apply_step(&mut self, step: Step<T, D>, zero: D)
        ensures
            final(self)@ == old(self)@.stepped(step, zero),
            final(self)@.target == old(self)@.target,
            final(self)@.config == old(self)@.config,
            final(self)@.epsilon == old(self)@.epsilon,
            step is Skipped ==> final(self)@ == old(self)@,
            step matches Step::Moved { value, velocity, settled } ==> if settled {
                final(self)@.value == old(self)@.target && final(self)@.velocity == zero
            } else {
                final(self)@.value == value && final(self)@.velocity == velocity
            },
    {
        match step {
            Step::Skipped => {},
            Step::Moved { value, velocity, settled } => {
                if settled {
                    self.value = self.target;
                    self.velocity = zero;
                } else {
                    self.value = value;
                    self.velocity = velocity;
                }
            },
        }
    }
}

/// Retargeting carries the complete state: a spring retargeted mid-flight is
/// the spring built directly at its value, with its velocity, configuration
/// and threshold, aimed at the new target.
pub proof fn lemma_retarget_is_direct_construction<T, D, C, E>(
    spring: SpringModel<T, D, C, E>,
    target: T,
    zero: D,
)
    ensures
        spring.with_target(target) == SpringModel::at_rest(
            spring.value,
            zero,
            spring.config,
            spring.epsilon,
        ).with_target(target).with_velocity(spring.velocity),
{
}

/// Retargeting moves neither the value nor the velocity.
pub proof fn lemma_retarget_keeps_value_and_velocity<T, D, C, E>(
    spring: SpringModel<T, D, C, E>,
    target: T,
)
    ensures
        spring.with_target(target).value == spring.value,
        spring.with_target(target).velocity == spring.velocity,
        spring.with_target(target).target == target,
{
}

/// No time step changes the target, the configuration or the settle
/// threshold.
pub proof fn lemma_step_keeps_target_and_config<T, D, C, E>(
    spring: SpringModel<T, D, C, E>,
    step: Step<T, D>,
    zero: D,
)
    ensures
        spring.stepped(step, zero).target == spring.target,
        spring.stepped(step, zero).config == spring.config,
        spring.stepped(step, zero).epsilon == spring.epsilon,
{
}

/// A skipped step (zero, negative or non-finite elapsed time) is a no-op, and
/// any number of them interleaved into a trajectory leave it unchanged.
pub proof fn lemma_skipped_step_changes_nothing<T, D, C, E>(
    spring: SpringModel<T, D, C, E>,
    zero: D,
)
    ensures
        spring.stepped(Step::Skipped, zero) == spring,
{
}

/// A spring that settles lands exactly on its target, at rest.
pub proof fn lemma_settled_step_rests_on_target<T, D, C, E>(
    spring: SpringModel<T, D, C, E>,
    value: T,
    velocity: D,
    zero: D,
)
    ensures
        spring.stepped(Step::Moved { value, velocity, settled: true }, zero) == SpringModel::at_rest(
            spring.target,
            zero,
            spring.config,
            spring.epsilon,
        ),
{
}

/// Each builder sets its own term to the argument and leaves the other four
/// as they were, whatever the types involved.
pub proof fn lemma_builders_set_one_term<T, D, C, E>(
    spring: SpringModel<T, D, C, E>,
    target: T,
    velocity: D,
    config: C,
    epsilon: E,
)
    ensures
        spring.with_config(config).config == config,
        spring.with_config(config).value == spring.value,
        spring.with_config(config).target == spring.target,
        spring.with_config(config).velocity == spring.velocity,
        spring.with_config(config).epsilon == spring.epsilon,
        spring.with_epsilon(epsilon).epsilon == epsilon,
        spring.with_epsilon(epsilon).value == spring.value,
        spring.with_epsilon(epsilon).target == spring.target,
        spring.with_epsilon(epsilon).velocity == spring.velocity,
        spring.with_epsilon(epsilon).config == spring.config,
        spring.with_target(target).target == target,
        spring.with_target(target).value == spring.value,
        spring.with_target(target).velocity == spring.velocity,
        spring.with_target(target).config == spring.config,
        spring.with_target(target).epsilon == spring.epsilon,
        spring.with_velocity(velocity).velocity == velocity,
        spring.with_velocity(velocity).value == spring.value,
        spring.with_velocity(velocity).target == spring.target,
        spring.with_velocity(velocity).config == spring.config,
        spring.with_velocity(velocity).epsilon == spring.epsilon,
{
}

/// A spring at rest on `value` is there, aimed at it, with velocity `zero`,
/// under the configuration and threshold it was given.
pub proof fn lemma_at_rest_terms<T, D, C, E>(value: T, zero: D, config: C, epsilon: E)
    ensures
        SpringModel::at_rest(value, zero, config, epsilon).value == value,
        SpringModel::at_rest(value, zero, config, epsilon).target == value,
        SpringModel::at_rest(value, zero, config, epsilon).velocity == zero,
        SpringModel::at_rest(value, zero, config, epsilon).config == config,
        SpringModel::at_rest(value, zero, config, epsilon).epsilon == epsilon,
{
}

/// A step that moves the spring without settling it puts the spring at the
/// solver's value and velocity, whatever the value type: the motion is never
/// dropped.
pub proof fn lemma_moving_step_takes_solver_state<T, D, C, E>(
    spring: SpringModel<T, D, C, E>,
    value: T,
    velocity: D,
    zero: D,
)
    ensures
        spring.stepped(Step::Moved { value, velocity, settled: false }, zero).value == value,
        spring.stepped(Step::Moved { value, velocity, settled: false }, zero).velocity == velocity,
        spring.stepped(Step::Moved { value, velocity, settled: false }, zero).target == spring.target,
        spring.stepped(Step::Moved { value, velocity, settled: false }, zero).config == spring.config,
        spring.stepped(Step::Moved { value, velocity, settled: false }, zero).epsilon == spring.epsilon,
{
}

} // verus!
