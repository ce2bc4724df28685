use vstd::prelude::*;

use crate::domain::{ConditionCommand, DeviceControlCommand, EffectKind, WheelCommand};
use crate::protocol::{clamp_int, DirectControl};

verus! {

pub open spec fn abs_int(x: int) -> int {
    if x < 0 {
        -x
    } else {
        x
    }
}

/// `x` saturated into the range of `i32`.
pub open spec fn saturate_i32(x: int) -> int {
    clamp_int(x, i32::MIN as int, i32::MAX as int)
}

/// A force clamped into the wheel's signed range.
pub open spec fn clamp_force_spec(force: int) -> i16 {
    clamp_int(force, -10_000, 10_000) as i16
}

/// `value` with the symmetric dead band removed around zero.
pub open spec fn dead_band_spec(value: int, dead_band: int) -> int {
    if abs_int(value) <= dead_band {
        0
    } else if value > 0 {
        value - dead_band
    } else {
        value + dead_band
    }
}

/// Magnitude of the force that a condition produces for a displacement of `amount` (> 0):
/// the displacement times the coefficient's magnitude, saturated to `i32`, scaled by 1/32767,
/// and capped at the saturation.
pub open spec fn condition_magnitude(amount: int, coefficient: i32, saturation: i32) -> int {
    let force = saturate_i32(amount * abs_int(coefficient as int)) / 32_767;
    if force > saturation {
        saturation as int
    } else {
        force
    }
}

/// Whether the force magnitude for one side of a condition can be computed: the coefficient has
/// a magnitude in `i32` and the saturation range `[0, saturation]` is not empty.
pub open spec fn condition_side_defined(coefficient: i32, saturation: i32) -> bool {
    coefficient != i32::MIN && saturation >= 0
}

/// Steering displacement from the spring's center, before the dead band.
pub open spec fn spring_centered(command: ConditionCommand, steering_state: int) -> int {
    steering_state - 32_767 - command.center_point_offset
}

/// Spring force for a steering position: zero without a steering position, otherwise a force
/// opposing the displacement beyond the dead band.
pub open spec fn spring_force_spec(command: ConditionCommand, steering_state: int) -> int {
    if steering_state < 0 {
        0
    } else {
        let adjusted = dead_band_spec(
            spring_centered(command, steering_state),
            command.dead_band as int,
        );
        if adjusted == 0 {
            0
        } else if adjusted > 0 {
            -condition_magnitude(adjusted, command.positive_coefficient, command.positive_saturation)
        } else {
            condition_magnitude(
                -adjusted,
                command.negative_coefficient,
                command.negative_saturation,
            )
        }
    }
}

/// The inputs on which the spring force is computed without overflow or an empty clamp range.
pub open spec fn spring_force_defined(command: ConditionCommand, steering_state: int) -> bool {
    steering_state < 0 || {
        let centered = spring_centered(command, steering_state);
        let dead_band = command.dead_band as int;
        let adjusted = dead_band_spec(centered, dead_band);
        &&& centered <= i32::MAX
        &&& abs_int(centered) > dead_band && centered > 0 ==> centered - dead_band <= i32::MAX
        &&& abs_int(centered) > dead_band && centered <= 0 ==> centered + dead_band >= i32::MIN
        &&& adjusted > 0 ==> condition_side_defined(
            command.positive_coefficient,
            command.positive_saturation,
        )
        &&& adjusted < 0 ==> adjusted > i32::MIN && condition_side_defined(
            command.negative_coefficient,
            command.negative_saturation,
        )
    }
}

/// Damper force for a steering movement: zero unless both positions are known, otherwise a force
/// opposing the velocity.
pub open spec fn damper_force_spec(
    command: ConditionCommand,
    last_steering_state: int,
    steering_state: int,
) -> int {
    if last_steering_state < 0 || steering_state < 0 {
        0
    } else {
        let velocity = steering_state - last_steering_state;
        if velocity == 0 {
            0
        } else if velocity > 0 {
            -condition_magnitude(velocity, command.positive_coefficient, command.positive_saturation)
        } else {
            condition_magnitude(
                -velocity,
                command.negative_coefficient,
                command.negative_saturation,
            )
        }
    }
}

/// The inputs on which the damper force is computed without overflow or an empty clamp range.
pub open spec fn damper_force_defined(
    command: ConditionCommand,
    last_steering_state: int,
    steering_state: int,
) -> bool {
    last_steering_state < 0 || steering_state < 0 || {
        let velocity = steering_state - last_steering_state;
        &&& velocity > 0 ==> condition_side_defined(
            command.positive_coefficient,
            command.positive_saturation,
        )
        &&& velocity < 0 ==> condition_side_defined(
            command.negative_coefficient,
            command.negative_saturation,
        )
    }
}

/// The forces that the direct-control adapter holds between commands.
#[derive(Debug, Clone, Copy)]
pub struct ForceState {
    pub constant_force: i16,
    pub periodic_force: i16,
    pub spring_force: i16,
    pub spring_condition: Option<ConditionCommand>,
    pub damper_condition: Option<ConditionCommand>,
    pub last_steering_state: i32,
}

impl ForceState {
    /// The state with every force and condition cleared.
    pub open spec fn cleared(self) -> ForceState {
        ForceState {
            constant_force: 0,
            periodic_force: 0,
            spring_force: 0,
            spring_condition: None,
            damper_condition: None,
            ..self
        }
    }

    /// The state after a device-control command.
    pub open spec fn device_control_spec(self, command: DeviceControlCommand) -> ForceState {
        match command {
            DeviceControlCommand::Continue => self,
            _ => self.cleared(),
        }
    }

    /// The state after an effect of `kind` is stopped.
    pub open spec fn stop_effect_spec(self, kind: EffectKind) -> ForceState {
        if kind is Constant {
            ForceState { constant_force: 0, ..self }
        } else if kind.is_periodic_wave() {
            ForceState { periodic_force: 0, ..self }
        } else if kind is Spring {
            ForceState { spring_condition: None, ..self }
        } else if kind is Damper {
            ForceState { damper_condition: None, ..self }
        } else {
            self
        }
    }

    /// The state after a command, before the condition forces are recomputed.
    pub open spec fn record_command_spec(self, command: WheelCommand) -> ForceState {
        match command {
            WheelCommand::Ignore => self,
            WheelCommand::DeviceControl(c) => self.device_control_spec(c),
            WheelCommand::StopEffect(kind) => self.stop_effect_spec(kind),
            WheelCommand::Constant(c) => ForceState {
                constant_force: clamp_force_spec(c.magnitude as int),
                ..self
            },
            WheelCommand::Periodic(c) => ForceState {
                periodic_force: clamp_force_spec(c.magnitude as int),
                ..self
            },
            WheelCommand::Condition(c) => if c.kind is Spring {
                ForceState { spring_condition: Some(c), ..self }
            } else if c.kind is Damper {
                ForceState { damper_condition: Some(c), ..self }
            } else {
                self
            },
        }
    }

    /// The spring force that the stored spring condition yields at `steering_state`.
    pub open spec fn spring_part(self, steering_state: int) -> int {
        match self.spring_condition {
            Some(c) => spring_force_spec(c, steering_state),
            None => 0,
        }
    }

    /// The damper force that the stored damper condition yields moving to `steering_state`.
    pub open spec fn damper_part(self, steering_state: int) -> int {
        match self.damper_condition {
            Some(c) => damper_force_spec(c, self.last_steering_state as int, steering_state),
            None => 0,
        }
    }

    /// The state after the condition forces are recomputed for `steering_state`: the spring
    /// channel carries the clamped, saturated sum of spring and damper forces.
    pub open spec fn refresh_spec(self, steering_state: i32) -> ForceState {
        ForceState {
            spring_force: clamp_force_spec(
                saturate_i32(
                    self.spring_part(steering_state as int) + self.damper_part(
                        steering_state as int,
                    ),
                ),
            ),
            last_steering_state: steering_state,
            ..self
        }
    }

    /// Whether recomputing the condition forces for `steering_state` is defined.
    pub open spec fn refresh_defined(self, steering_state: i32) -> bool {
        &&& match self.spring_condition {
            Some(c) => spring_force_defined(c, steering_state as int),
            None => true,
        }
        &&& match self.damper_condition {
            Some(c) => damper_force_defined(
                c,
                self.last_steering_state as int,
                steering_state as int,
            ),
            None => true,
        }
    }

    /// The state after one command at `steering_state`.
    pub open spec fn apply_command_spec(self, command: WheelCommand, steering_state: i32) -> ForceState {
        self.record_command_spec(command).refresh_spec(steering_state)
    }

    pub open spec fn apply_command_defined(self, command: WheelCommand, steering_state: i32) -> bool {
        self.record_command_spec(command).refresh_defined(steering_state)
    }

    /// The state after the commands, in order, at `steering_state`.
    pub open spec fn apply_commands_spec(
        self,
        commands: Seq<WheelCommand>,
        steering_state: i32,
    ) -> ForceState
        decreases commands.len(),
    {
        if commands.len() == 0 {
            self
        } else {
            self.apply_commands_spec(commands.drop_last(), steering_state).apply_command_spec(
                commands.last(),
                steering_state,
            )
        }
    }

    /// Whether applying the commands, in order, at `steering_state` is defined.
    pub open spec fn apply_commands_defined(
        self,
        commands: Seq<WheelCommand>,
        steering_state: i32,
    ) -> bool
        decreases commands.len(),
    {
        commands.len() == 0 || {
            &&& self.apply_commands_defined(commands.drop_last(), steering_state)
            &&& self.apply_commands_spec(
                commands.drop_last(),
                steering_state,
            ).apply_command_defined(commands.last(), steering_state)
        }
    }

    /// The direct control that the state commands.
    pub open spec fn direct_control_spec(self) -> DirectControl {
        DirectControl {
            spring_force: self.spring_force,
            constant_force: self.constant_force,
            periodic_force: self.periodic_force,
            force_drop: 0,
        }
    }

    fn apply_command(&mut self, command: &WheelCommand, steering_state: i32)
        requires
            old(self).apply_command_defined(*command, steering_state),
        ensures
            *final(self) == old(self).apply_command_spec(*command, steering_state),
    {
        self.record_command(command);
        self.refresh_condition_force(steering_state);
    }

    fn record_command(&mut self, command: &WheelCommand)
        ensures
            *final(self) == old(self).record_command_spec(*command),
    {
        match command {
            WheelCommand::Ignore => {},
            WheelCommand::DeviceControl(command) => self.apply_device_control(*command),
            WheelCommand::StopEffect(kind) => self.stop_effect(*kind),
            WheelCommand::Constant(command) => {
                self.constant_force = clamp_force(command.magnitude);
            },
            WheelCommand::Periodic(command) => {
                self.periodic_force = clamp_force(command.magnitude);
            },
            WheelCommand::Condition(command) => match command.kind {
                EffectKind::Spring => self.spring_condition = Some(*command),
                EffectKind::Damper => self.damper_condition = Some(*command),
                _ => {},
            },
        }
    }

    fn refresh_is_defined(&self, steering_state: i32) -> (r: bool)
        ensures
            r == self.refresh_defined(steering_state),
    {
        let spring_ok = match &self.spring_condition {
            Some(command) => spring_is_defined(command, steering_state),
            None => true,
        };
        let damper_ok = match &self.damper_condition {
            Some(command) => damper_is_defined(command, self.last_steering_state, steering_state),
            None => true,
        };
        spring_ok && damper_ok
    }

    fn update_steering_state(&mut self, steering_state: i32)
        requires
            old(self).refresh_defined(steering_state),
        ensures
            *final(self) == old(self).refresh_spec(steering_state),
    {
        self.refresh_condition_force(steering_state);
    }

    fn direct_control(&self) -> (r: DirectControl)
        ensures
            r == self.direct_control_spec(),
    {
        DirectControl {
            spring_force: self.spring_force,
            constant_force: self.constant_force,
            periodic_force: self.periodic_force,
            force_drop: 0,
        }
    }

    fn apply_device_control(&mut self, command: DeviceControlCommand)
        ensures
            *final(self) == old(self).device_control_spec(command),
    {
        match command {
            DeviceControlCommand::Reset
            | DeviceControlCommand::StopAll
            | DeviceControlCommand::Pause => {
                self.constant_force = 0;
                self.periodic_force = 0;
                self.spring_force = 0;
                self.spring_condition = None;
                self.damper_condition = None;
            },
            DeviceControlCommand::Continue => {},
        }
    }

    fn stop_effect(&mut self, kind: EffectKind)
        ensures
            *final(self) == old(self).stop_effect_spec(kind),
    {
        match kind {
            EffectKind::Constant => self.constant_force = 0,
            EffectKind::Sine
            | EffectKind::Square
            | EffectKind::Triangle
            | EffectKind::SawUp
            | EffectKind::SawDown => self.periodic_force = 0,
            EffectKind::Spring => self.spring_condition = None,
            EffectKind::Damper => self.damper_condition = None,
            EffectKind::NoEffect
            | EffectKind::Ramp
            | EffectKind::Inertia
            | EffectKind::Friction
            | EffectKind::Custom
            | EffectKind::Unknown(_) => {},
        }
    }

    fn refresh_condition_force(&mut self, steering_state: i32)
        requires
            old(self).refresh_defined(steering_state),
        ensures
            *final(self) == old(self).refresh_spec(steering_state),
    {
        let spring: i32 = match &self.spring_condition {
            Some(command) => spring_force(command, steering_state),
            None => 0,
        };
        let damper: i32 = match &self.damper_condition {
            Some(command) => damper_force(command, self.last_steering_state, steering_state),
            None => 0,
        };
        self.spring_force = clamp_force(saturating_add_i32(spring, damper));
        self.last_steering_state = steering_state;
    }
}

/// Translates wheel commands into the wheel's direct-control forces, tracking the last output
/// so that only changes are reported.
#[derive(Debug, Clone)]
pub struct FFBeastDirectAdapter {
    forces: ForceState,
    steering_state: i32,
    last_output: DirectControl,
    pending_output: Option<DirectControl>,
}

impl FFBeastDirectAdapter {
    pub closed spec fn forces(&self) -> ForceState {
        self.forces
    }

    pub closed spec fn steering_state(&self) -> i32 {
        self.steering_state
    }

    pub closed spec fn last_output(&self) -> DirectControl {
        self.last_output
    }

    pub closed spec fn pending_output(&self) -> Option<DirectControl> {
        self.pending_output
    }

    /// The outcome of offering `forces` as the next output: the clamped control when it differs
    /// from `last_output`, `None` when it does not.
    pub open spec fn offered_output(forces: ForceState, last_output: DirectControl) -> Option<
        DirectControl,
    > {
        let control = forces.direct_control_spec().clamped_spec();
        if control == last_output {
            None
        } else {
            Some(control)
        }
    }

    /// What recording an offered output does: a new output becomes the last and the pending one;
    /// an unchanged output leaves both as they were.
    pub open spec fn records(
        self,
        old_adapter: FFBeastDirectAdapter,
        result: Option<DirectControl>,
    ) -> bool {
        &&& result == Self::offered_output(self.forces(), old_adapter.last_output())
        &&& match result {
            Some(control) => self.last_output() == control && self.pending_output() == Some(
                control,
            ),
            None => self.last_output() == old_adapter.last_output() && self.pending_output()
                == old_adapter.pending_output(),
        }
    }

    /// The initial forces: everything cleared and no steering position seen yet.
    pub open spec fn initial_forces() -> ForceState {
        ForceState {
            constant_force: 0,
            periodic_force: 0,
            spring_force: 0,
            spring_condition: None,
            damper_condition: None,
            last_steering_state: -1i32,
        }
    }

    pub fn new() -> (r: Self)
        ensures
            r.forces() == Self::initial_forces(),
            r.steering_state() == -1,
            r.last_output() == DirectControl::zero(),
            r.pending_output() == None::<DirectControl>,
    {
        FFBeastDirectAdapter {
            forces: ForceState {
                constant_force: 0,
                periodic_force: 0,
                spring_force: 0,
                spring_condition: None,
                damper_condition: None,
                last_steering_state: -1,
            },
            steering_state: -1,
            last_output: DirectControl::default(),
            pending_output: None,
        }
    }

    /// Applies the commands in order at the current steering position and offers the resulting
    /// control as the next output.
    pub fn apply_commands(&mut self, commands: &[WheelCommand]) -> (r: Option<DirectControl>)
        requires
            old(self).forces().apply_commands_defined(commands@, old(self).steering_state()),
        ensures
            final(self).forces() == old(self).forces().apply_commands_spec(
                commands@,
                old(self).steering_state(),
            ),
            final(self).steering_state() == old(self).steering_state(),
            final(self).records(*old(self), r),
    {
        let steering_state = self.steering_state;
        let ghost start = self.forces;
        let mut i: usize = 0;
        while i < commands.len()
            invariant
                i <= commands@.len(),
                steering_state == self.steering_state,
                self.steering_state == old(self).steering_state,
                self.last_output == old(self).last_output,
                self.pending_output == old(self).pending_output,
                start == old(self).forces,
                start.apply_commands_defined(commands@, steering_state),
                self.forces == start.apply_commands_spec(commands@.take(i as int), steering_state),
            decreases commands@.len() - i,
        {
            proof {
                lemma_defined_prefix(start, commands@, steering_state, (i + 1) as int);
                assert(commands@.take(i + 1).drop_last() =~= commands@.take(i as int));
            }
            self.forces.apply_command(&commands[i], steering_state);
            i += 1;
        }
        assert(commands@.take(commands@.len() as int) =~= commands@);
        let control = self.forces.direct_control();
        self.record_output(control)
    }

    /// Moves to a new steering position, recomputes the condition forces and offers the
    /// resulting control as the next output.
    pub fn update_steering_state(&mut self, steering_state: i32) -> (r: Option<DirectControl>)
        requires
            old(self).forces().refresh_defined(steering_state),
        ensures
            final(self).forces() == old(self).forces().refresh_spec(steering_state),
            final(self).steering_state() == steering_state,
            final(self).records(*old(self), r),
    {
        self.steering_state = steering_state;
        self.forces.update_steering_state(steering_state);
        let control = self.forces.direct_control();
        self.record_output(control)
    }

    /// Whether applying the commands at the current steering position stays within the ranges
    /// that the force computations are defined on.
    pub fn commands_are_defined(&self, commands: &[WheelCommand]) -> (r: bool)
        ensures
            r == self.forces().apply_commands_defined(commands@, self.steering_state()),
    {
        let steering_state = self.steering_state;
        let mut state = self.forces;
        let mut i: usize = 0;
        while i < commands.len()
            invariant
                i <= commands@.len(),
                steering_state == self.steering_state,
                self.forces.apply_commands_defined(commands@.take(i as int), steering_state),
                state == self.forces.apply_commands_spec(commands@.take(i as int), steering_state),
            decreases commands@.len() - i,
        {
            proof {
                assert(commands@.take(i + 1).drop_last() =~= commands@.take(i as int));
            }
            let mut next = state;
            next.record_command(&commands[i]);
            if !next.refresh_is_defined(steering_state) {
                proof {
                    assert(!self.forces.apply_commands_defined(commands@.take(i + 1), steering_state));
                    if self.forces.apply_commands_defined(commands@, steering_state) {
                        lemma_defined_prefix(self.forces, commands@, steering_state, (i + 1) as int);
                    }
                }
                return false;
            }
            next.refresh_condition_force(steering_state);
            state = next;
            i += 1;
        }
        assert(commands@.take(commands@.len() as int) =~= commands@);
        true
    }

    /// Whether moving to `steering_state` stays within the ranges that the force computations
    /// are defined on.
    pub fn steering_update_is_defined(&self, steering_state: i32) -> (r: bool)
        ensures
            r == self.forces().refresh_defined(steering_state),
    {
        self.forces.refresh_is_defined(steering_state)
    }

    pub fn current_output(&self) -> (r: DirectControl)
        ensures
            r == self.last_output(),
    {
        self.last_output
    }

    /// Hands out the pending output once.
    pub fn take_pending_output(&mut self) -> (r: Option<DirectControl>)
        ensures
            r == old(self).pending_output(),
            final(self).pending_output() == None::<DirectControl>,
            final(self).forces() == old(self).forces(),
            final(self).steering_state() == old(self).steering_state(),
            final(self).last_output() == old(self).last_output(),
    {
        self.pending_output.take()
    }

    fn record_output(&mut self, control: DirectControl) -> (r: Option<DirectControl>)
        requires
            control == old(self).forces.direct_control_spec(),
        ensures
            final(self).forces == old(self).forces,
            final(self).steering_state == old(self).steering_state,
            final(self).records(*old(self), r),
    {
        let control = control.clamped();
        if control == self.last_output {
            return None;
        }
        self.last_output = control;
        self.pending_output = Some(control);
        Some(control)
    }
}

/// Definedness of a sequence of commands carries over to each of its prefixes.
proof fn lemma_defined_prefix(state: ForceState, commands: Seq<WheelCommand>, steering_state: i32, n: int)
    requires
        0 < n <= commands.len(),
        state.apply_commands_defined(commands, steering_state),
    ensures
        state.apply_commands_defined(commands.take(n), steering_state),
        state.apply_commands_spec(commands.take(n).drop_last(), steering_state).apply_command_defined(
            commands[n - 1],
            steering_state,
        ),
    decreases commands.len(),
{
    if n == commands.len() {
        assert(commands.take(n) =~= commands);
    } else {
        lemma_defined_prefix(state, commands.drop_last(), steering_state, n);
        assert(commands.drop_last().take(n) =~= commands.take(n));
    }
}


/// Every output that the adapter offers lies within the ranges that the wheel accepts.
pub proof fn lemma_offered_output_is_clamped(forces: ForceState, last_output: DirectControl)
    ensures
        FFBeastDirectAdapter::offered_output(forces, last_output) matches Some(c) ==> c.is_clamped(),
{
}

/// Offering the same forces again right after an output was recorded reports no change.
pub proof fn lemma_repeated_offer_is_silent(forces: ForceState, last_output: DirectControl)
    ensures
        FFBeastDirectAdapter::offered_output(forces, last_output) matches Some(c)
            ==> FFBeastDirectAdapter::offered_output(forces, c) == None::<DirectControl>,
{
    let c = forces.direct_control_spec().clamped_spec();
    assert(c.clamped_spec() == c);
}

/// A reset, stop-all or pause command silences the wheel: every force channel of the resulting
/// control is zero, whatever the steering position.
pub proof fn lemma_stopping_device_control_zeroes_output(
    state: ForceState,
    command: DeviceControlCommand,
    steering_state: i32,
)
    requires
        !(command is Continue),
    ensures
        state.apply_command_spec(WheelCommand::DeviceControl(command), steering_state).direct_control_spec()
            == DirectControl::zero(),
        state.apply_command_spec(WheelCommand::DeviceControl(command), steering_state).spring_condition
            == None::<ConditionCommand>,
        state.apply_command_spec(WheelCommand::DeviceControl(command), steering_state).damper_condition
            == None::<ConditionCommand>,
{
}

/// Stopping an effect of some kind silences exactly that kind's channel and leaves the
/// other effects as they were.
pub proof fn lemma_stop_effect_clears_its_channel(state: ForceState, kind: EffectKind, steering_state: i32)
    ensures
        ({
            let next = state.apply_command_spec(WheelCommand::StopEffect(kind), steering_state);
            &&& kind is Constant ==> next.constant_force == 0
            &&& !(kind is Constant) ==> next.constant_force == state.constant_force
            &&& kind.is_periodic_wave() ==> next.periodic_force == 0
            &&& !kind.is_periodic_wave() ==> next.periodic_force == state.periodic_force
            &&& kind is Spring ==> next.spring_condition == None::<ConditionCommand>
            &&& !(kind is Spring) ==> next.spring_condition == state.spring_condition
            &&& kind is Damper ==> next.damper_condition == None::<ConditionCommand>
            &&& !(kind is Damper) ==> next.damper_condition == state.damper_condition
        }),
{
}

/// A spring pushes back toward its center: beyond the dead band on the positive side its force
/// is never positive, on the negative side never negative, and inside the dead band it is zero.
/// Its magnitude never exceeds the saturation of the side it acts on.
pub proof fn lemma_spring_restores_center(command: ConditionCommand, steering_state: int)
    requires
        steering_state >= 0,
        spring_force_defined(command, steering_state),
    ensures
        ({
            let adjusted = dead_band_spec(
                spring_centered(command, steering_state),
                command.dead_band as int,
            );
            let force = spring_force_spec(command, steering_state);
            &&& adjusted > 0 ==> -command.positive_saturation <= force <= 0
            &&& adjusted < 0 ==> 0 <= force <= command.negative_saturation
            &&& adjusted == 0 ==> force == 0
        }),
{
}

/// A damper opposes the steering velocity, bounded by the saturation of the side it acts on,
/// and is silent while the wheel does not move or no earlier position is known.
pub proof fn lemma_damper_opposes_motion(command: ConditionCommand, last_steering_state: int, steering_state: int)
    requires
        damper_force_defined(command, last_steering_state, steering_state),
    ensures
        ({
            let force = damper_force_spec(command, last_steering_state, steering_state);
            &&& (last_steering_state < 0 || steering_state < 0 || steering_state
                == last_steering_state) ==> force == 0
            &&& (last_steering_state >= 0 && steering_state > last_steering_state) ==> -command.positive_saturation <= force <= 0
            &&& (steering_state >= 0 && steering_state < last_steering_state) ==> 0 <= force <= command.negative_saturation
        }),
{
}

/// Every state that the adapter reaches keeps its spring channel within the wheel's range.
pub proof fn lemma_refresh_keeps_spring_in_range(state: ForceState, steering_state: i32)
    ensures
        -10_000 <= state.refresh_spec(steering_state).spring_force <= 10_000,
        state.refresh_spec(steering_state).last_steering_state == steering_state,
{
}

fn saturating_add_i32(a: i32, b: i32) -> (r: i32)
    ensures
        r == saturate_i32(a + b),
{
    let sum: i64 = a as i64 + b as i64;
    if sum > i32::MAX as i64 {
        i32::MAX
    } else if sum < i32::MIN as i64 {
        i32::MIN
    } else {
        sum as i32
    }
}

/// The force magnitude for one side of a condition; `amount` is the positive displacement.
fn condition_side_force(amount: i32, coefficient: i32, saturation: i32) -> (r: i32)
    requires
        amount > 0,
        condition_side_defined(coefficient, saturation),
    ensures
        r == condition_magnitude(amount as int, coefficient, saturation),
        0 <= r <= saturation,
{
    let magnitude: i64 = if coefficient < 0 { -(coefficient as i64) } else { coefficient as i64 };
    assert(0 <= amount * magnitude <= 0x7fff_ffff * 0x7fff_ffff) by (nonlinear_arith)
        requires
            0 < amount <= 0x7fff_ffff,
            0 <= magnitude <= 0x7fff_ffff,
    ;
    let product: i64 = amount as i64 * magnitude;
    let saturated: i64 = if product > i32::MAX as i64 { i32::MAX as i64 } else { product };
    let force: i64 = saturated / 32_767;
    if force > saturation as i64 {
        saturation
    } else {
        force as i32
    }
}

fn spring_force(command: &ConditionCommand, steering_state: i32) -> (r: i32)
    requires
        spring_force_defined(*command, steering_state as int),
    ensures
        r == spring_force_spec(*command, steering_state as int),
{
    if steering_state < 0 {
        return 0;
    }
    let centered = steering_state - 32_767 - command.center_point_offset as i32;
    let adjusted = apply_dead_band(centered, command.dead_band);
    if adjusted == 0 {
        return 0;
    }
    if adjusted > 0 {
        -condition_side_force(adjusted, command.positive_coefficient, command.positive_saturation)
    } else {
        condition_side_force(-adjusted, command.negative_coefficient, command.negative_saturation)
    }
}

fn damper_force(command: &ConditionCommand, last_steering_state: i32, steering_state: i32) -> (r: i32)
    requires
        damper_force_defined(*command, last_steering_state as int, steering_state as int),
    ensures
        r == damper_force_spec(*command, last_steering_state as int, steering_state as int),
{
    if last_steering_state < 0 || steering_state < 0 {
        return 0;
    }
    let velocity = steering_state - last_steering_state;
    if velocity == 0 {
        return 0;
    }
    if velocity > 0 {
        -condition_side_force(velocity, command.positive_coefficient, command.positive_saturation)
    } else {
        condition_side_force(-velocity, command.negative_coefficient, command.negative_saturation)
    }
}

fn apply_dead_band(value: i32, dead_band: i32) -> (r: i32)
    requires
        value > i32::MIN,
        abs_int(value as int) > dead_band && value > 0 ==> value - dead_band <= i32::MAX,
        abs_int(value as int) > dead_band && value <= 0 ==> value + dead_band >= i32::MIN,
    ensures
        r == dead_band_spec(value as int, dead_band as int),
{
    let magnitude = if value < 0 { -value } else { value };
    if magnitude <= dead_band {
        0
    } else if value > 0 {
        value - dead_band
    } else {
        value + dead_band
    }
}

fn side_is_defined(coefficient: i32, saturation: i32) -> (r: bool)
    ensures
        r == condition_side_defined(coefficient, saturation),
{
    coefficient != i32::MIN && saturation >= 0
}

fn spring_is_defined(command: &ConditionCommand, steering_state: i32) -> (r: bool)
    ensures
        r == spring_force_defined(*command, steering_state as int),
{
    if steering_state < 0 {
        return true;
    }
    let centered: i64 = steering_state as i64 - 32_767 - command.center_point_offset as i64;
    let dead_band: i64 = command.dead_band as i64;
    if centered > i32::MAX as i64 {
        return false;
    }
    let magnitude: i64 = if centered < 0 { -centered } else { centered };
    if magnitude <= dead_band {
        return true;
    }
    if centered > 0 {
        let adjusted: i64 = centered - dead_band;
        if adjusted > i32::MAX as i64 {
            return false;
        }
        adjusted <= 0 || side_is_defined(command.positive_coefficient, command.positive_saturation)
    } else {
        let adjusted: i64 = centered + dead_band;
        if adjusted < i32::MIN as i64 {
            return false;
        }
        if adjusted > 0 {
            side_is_defined(command.positive_coefficient, command.positive_saturation)
        } else if adjusted < 0 {
            adjusted > i32::MIN as i64 && side_is_defined(
                command.negative_coefficient,
                command.negative_saturation,
            )
        } else {
            true
        }
    }
}

fn damper_is_defined(command: &ConditionCommand, last_steering_state: i32, steering_state: i32) -> (r: bool)
    ensures
        r == damper_force_defined(*command, last_steering_state as int, steering_state as int),
{
    if last_steering_state < 0 || steering_state < 0 {
        return true;
    }
    let velocity: i64 = steering_state as i64 - last_steering_state as i64;
    if velocity > 0 {
        side_is_defined(command.positive_coefficient, command.positive_saturation)
    } else if velocity < 0 {
        side_is_defined(command.negative_coefficient, command.negative_saturation)
    } else {
        true
    }
}

fn clamp_force(force: i32) -> (r: i16)
    ensures
        r == clamp_force_spec(force as int),
{
    if force < -10_000 {
        -10_000
    } else if force > 10_000 {
        10_000
    } else {
        force as i16
    }
}

/// Spring and damper act together on the spring channel: with both conditions stored, the
/// channel after a refresh is the sum of the force that the spring alone yields at the new
/// position and the force that the damper alone yields for the movement there, saturated to
/// `i32` and clamped to the wheel's range. With only one of them stored, that one's force alone,
/// clamped; with neither, zero. The damper contributes the same whether or not a spring is
/// stored, and the refresh changes no other force and no stored condition.
pub proof fn lemma_spring_and_damper_add_up(state: ForceState, steering_state: i32)
    ensures
        ({
            let next = state.refresh_spec(steering_state);
            let last = state.last_steering_state as int;
            let position = steering_state as int;
            let s = state.spring_condition->0;
            let d = state.damper_condition->0;
            &&& state.spring_condition is Some && state.damper_condition is Some
                ==> next.spring_force == clamp_int(
                clamp_int(
                    spring_force_spec(s, position) + damper_force_spec(d, last, position),
                    i32::MIN as int,
                    i32::MAX as int,
                ),
                -10_000,
                10_000,
            )
            &&& state.spring_condition is Some && state.damper_condition is None
                ==> next.spring_force == clamp_int(
                clamp_int(spring_force_spec(s, position), i32::MIN as int, i32::MAX as int),
                -10_000,
                10_000,
            )
            &&& state.spring_condition is None && state.damper_condition is Some
                ==> next.spring_force == clamp_int(
                clamp_int(damper_force_spec(d, last, position), i32::MIN as int, i32::MAX as int),
                -10_000,
                10_000,
            )
            &&& state.spring_condition is None && state.damper_condition is None
                ==> next.spring_force == 0
            &&& next.constant_force == state.constant_force
            &&& next.periodic_force == state.periodic_force
            &&& next.spring_condition == state.spring_condition
            &&& next.damper_condition == state.damper_condition
            &&& next.last_steering_state == steering_state
        }),
{
}

/// Removing the spring condition takes exactly the spring's force out of the spring channel:
/// when the forces stay inside the wheel's range, the channel with both conditions is the
/// channel without the spring plus the spring's own force, so the damper's share does not
/// depend on whether a spring is stored.
pub proof fn lemma_damper_share_ignores_spring(state: ForceState, steering_state: i32)
    requires
        state.spring_condition is Some,
    ensures
        ({
            let s = state.spring_condition->0;
            let without_spring = ForceState { spring_condition: None, ..state };
            let spring = spring_force_spec(s, steering_state as int);
            let damper_channel = without_spring.refresh_spec(steering_state).spring_force as int;
            let both_channel = state.refresh_spec(steering_state).spring_force as int;
            -10_000 < damper_channel < 10_000 && -10_000 < damper_channel + spring < 10_000
                ==> both_channel == damper_channel + spring
        }),
{
}

} // verus!
