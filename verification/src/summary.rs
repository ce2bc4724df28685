use vstd::prelude::*;
use crate::domain::{
    DeviceControlCommand, EffectKind, EffectUpdate, GameEffect, WheelCommand,
};
use crate::inputs::WinmmJoystick;
use crate::text::{append_decimal_i64, append_decimal_u64, decimal_digits, decimal_int};

verus! {

/// The name of a device-control command as the bridge logs it.
pub open spec fn device_control_text(command: DeviceControlCommand) -> Seq<char> {
    match command {
        DeviceControlCommand::Reset => "Reset"@,
        DeviceControlCommand::StopAll => "StopAll"@,
        DeviceControlCommand::Pause => "Pause"@,
        DeviceControlCommand::Continue => "Continue"@,
    }
}

/// The name of an effect kind as the bridge logs it; an unknown kind carries its raw number.
pub open spec fn effect_kind_text(kind: EffectKind) -> Seq<char> {
    match kind {
        EffectKind::NoEffect => "None"@,
        EffectKind::Constant => "Constant"@,
        EffectKind::Ramp => "Ramp"@,
        EffectKind::Square => "Square"@,
        EffectKind::Sine => "Sine"@,
        EffectKind::Triangle => "Triangle"@,
        EffectKind::SawUp => "SawUp"@,
        EffectKind::SawDown => "SawDown"@,
        EffectKind::Spring => "Spring"@,
        EffectKind::Damper => "Damper"@,
        EffectKind::Inertia => "Inertia"@,
        EffectKind::Friction => "Friction"@,
        EffectKind::Custom => "Custom"@,
        EffectKind::Unknown(raw) => "Unknown("@ + decimal_int(raw as int) + ")"@,
    }
}

/// `periodic(magnitude=.., offset=.., period=.., phase=.., gain=..)`.
pub open spec fn periodic_text(magnitude: i32, offset: i16, period: i32, phase: i32, gain: i32) -> Seq<char> {
    "periodic(magnitude="@ + decimal_int(magnitude as int) + ", offset="@ + decimal_int(offset as int)
        + ", period="@ + decimal_int(period as int) + ", phase="@ + decimal_int(phase as int)
        + ", gain="@ + decimal_int(gain as int) + ")"@
}

/// `condition(kind=.., pos_coef=.., neg_coef=.., pos_sat=.., neg_sat=.., gain=..)`.
pub open spec fn condition_text(
    kind: EffectKind,
    positive_coefficient: i32,
    negative_coefficient: i32,
    positive_saturation: i32,
    negative_saturation: i32,
    gain: i32,
) -> Seq<char> {
    "condition(kind="@ + effect_kind_text(kind) + ", pos_coef="@ + decimal_int(positive_coefficient as int)
        + ", neg_coef="@ + decimal_int(negative_coefficient as int) + ", pos_sat="@ + decimal_int(
        positive_saturation as int,
    ) + ", neg_sat="@ + decimal_int(negative_saturation as int) + ", gain="@ + decimal_int(gain as int)
        + ")"@
}

/// The one-line description of an effect the game asked for.
pub open spec fn game_effect_text(effect: GameEffect) -> Seq<char> {
    match effect {
        GameEffect::Constant { metadata, magnitude } => "constant(magnitude="@ + decimal_int(
            magnitude as int,
        ) + ", gain="@ + decimal_int(metadata.gain as int) + ", duration_ms="@ + decimal_int(
            metadata.duration_ms as int,
        ) + ")"@,
        GameEffect::Periodic { metadata, magnitude, offset, period, phase } => periodic_text(
            magnitude,
            offset,
            period,
            phase,
            metadata.gain,
        ),
        GameEffect::Condition {
            metadata,
            kind,
            positive_coefficient,
            negative_coefficient,
            positive_saturation,
            negative_saturation,
            ..
        } => condition_text(
            kind,
            positive_coefficient,
            negative_coefficient,
            positive_saturation,
            negative_saturation,
            metadata.gain,
        ),
    }
}

/// The one-line description of a decoded effect update.
pub open spec fn effect_update_text(update: EffectUpdate) -> Seq<char> {
    match update {
        EffectUpdate::Ignore => "ignore"@,
        EffectUpdate::DeviceControl(command) => "device_control("@ + device_control_text(command) + ")"@,
        EffectUpdate::StopEffect(kind) => "stop("@ + effect_kind_text(kind) + ")"@,
        EffectUpdate::Apply(effect) => game_effect_text(effect),
    }
}

/// The one-line description of a wheel command.
pub open spec fn wheel_command_text(command: WheelCommand) -> Seq<char> {
    match command {
        WheelCommand::Ignore => "ignore"@,
        WheelCommand::DeviceControl(control) => "device_control("@ + device_control_text(control) + ")"@,
        WheelCommand::StopEffect(kind) => "stop("@ + effect_kind_text(kind) + ")"@,
        WheelCommand::Constant(c) => "constant(magnitude="@ + decimal_int(c.magnitude as int)
            + ", gain="@ + decimal_int(c.metadata.gain as int) + ", direction="@ + decimal_int(
            c.metadata.direction as int,
        ) + ")"@,
        WheelCommand::Periodic(c) => periodic_text(c.magnitude, c.offset, c.period, c.phase, c.metadata.gain),
        WheelCommand::Condition(c) => condition_text(
            c.kind,
            c.positive_coefficient,
            c.negative_coefficient,
            c.positive_saturation,
            c.negative_saturation,
            c.metadata.gain,
        ),
    }
}

/// How many items a summary spells out.
pub const SUMMARY_MAX_ITEMS: usize = 4;

/// Descriptions joined by `; `.
pub open spec fn joined_descriptions(descriptions: Seq<Seq<char>>) -> Seq<char>
    decreases descriptions.len(),
{
    if descriptions.len() == 0 {
        Seq::empty()
    } else if descriptions.len() == 1 {
        descriptions[0]
    } else {
        joined_descriptions(descriptions.drop_last()) + "; "@ + descriptions.last()
    }
}

/// A summary of a list of descriptions: `none` for an empty list, otherwise the first four
/// joined by `; `, followed by `; +N more` when N more were left out.
pub open spec fn summary_text(descriptions: Seq<Seq<char>>) -> Seq<char> {
    if descriptions.len() == 0 {
        "none"@
    } else if descriptions.len() <= SUMMARY_MAX_ITEMS {
        joined_descriptions(descriptions)
    } else {
        joined_descriptions(descriptions.take(SUMMARY_MAX_ITEMS as int)) + "; +"@ + decimal_digits(
            (descriptions.len() - SUMMARY_MAX_ITEMS) as nat,
        ) + " more"@
    }
}

fn append_i32(out: &mut String, v: i32)
    ensures
        final(out)@ == old(out)@ + decimal_int(v as int),
{
    append_decimal_i64(out, v as i64);
}

fn append_device_control(out: &mut String, command: DeviceControlCommand)
    ensures
        final(out)@ == old(out)@ + device_control_text(command),
{
    match command {
        DeviceControlCommand::Reset => out.append("Reset"),
        DeviceControlCommand::StopAll => out.append("StopAll"),
        DeviceControlCommand::Pause => out.append("Pause"),
        DeviceControlCommand::Continue => out.append("Continue"),
    }
}

fn append_effect_kind(out: &mut String, kind: EffectKind)
    ensures
        final(out)@ == old(out)@ + effect_kind_text(kind),
{
    match kind {
        EffectKind::NoEffect => out.append("None"),
        EffectKind::Constant => out.append("Constant"),
        EffectKind::Ramp => out.append("Ramp"),
        EffectKind::Square => out.append("Square"),
        EffectKind::Sine => out.append("Sine"),
        EffectKind::Triangle => out.append("Triangle"),
        EffectKind::SawUp => out.append("SawUp"),
        EffectKind::SawDown => out.append("SawDown"),
        EffectKind::Spring => out.append("Spring"),
        EffectKind::Damper => out.append("Damper"),
        EffectKind::Inertia => out.append("Inertia"),
        EffectKind::Friction => out.append("Friction"),
        EffectKind::Custom => out.append("Custom"),
        EffectKind::Unknown(raw) => {
            out.append("Unknown(");
            append_i32(out, raw);
            out.append(")");
            assert(out@ =~= old(out)@ + effect_kind_text(kind));
        },
    }
}

fn append_periodic(out: &mut String, magnitude: i32, offset: i16, period: i32, phase: i32, gain: i32)
    ensures
        final(out)@ == old(out)@ + periodic_text(magnitude, offset, period, phase, gain),
{
    out.append("periodic(magnitude=");
    append_i32(out, magnitude);
    out.append(", offset=");
    append_i32(out, offset as i32);
    out.append(", period=");
    append_i32(out, period);
    out.append(", phase=");
    append_i32(out, phase);
    out.append(", gain=");
    append_i32(out, gain);
    out.append(")");
    assert(out@ =~= old(out)@ + periodic_text(magnitude, offset, period, phase, gain));
}

fn append_condition(
    out: &mut String,
    kind: EffectKind,
    positive_coefficient: i32,
    negative_coefficient: i32,
    positive_saturation: i32,
    negative_saturation: i32,
    gain: i32,
)
    ensures
        final(out)@ == old(out)@ + condition_text(
            kind,
            positive_coefficient,
            negative_coefficient,
            positive_saturation,
            negative_saturation,
            gain,
        ),
{
    out.append("condition(kind=");
    append_effect_kind(out, kind);
    out.append(", pos_coef=");
    append_i32(out, positive_coefficient);
    out.append(", neg_coef=");
    append_i32(out, negative_coefficient);
    out.append(", pos_sat=");
    append_i32(out, positive_saturation);
    out.append(", neg_sat=");
    append_i32(out, negative_saturation);
    out.append(", gain=");
    append_i32(out, gain);
    out.append(")");
    assert(out@ =~= old(out)@ + condition_text(
        kind,
        positive_coefficient,
        negative_coefficient,
        positive_saturation,
        negative_saturation,
        gain,
    ));
}

fn append_game_effect(out: &mut String, effect: &GameEffect)
    ensures
        final(out)@ == old(out)@ + game_effect_text(*effect),
{
    match effect {
        GameEffect::Constant { metadata, magnitude } => {
            out.append("constant(magnitude=");
            append_i32(out, *magnitude);
            out.append(", gain=");
            append_i32(out, metadata.gain);
            out.append(", duration_ms=");
            append_i32(out, metadata.duration_ms);
            out.append(")");
            assert(out@ =~= old(out)@ + game_effect_text(*effect));
        },
        GameEffect::Periodic { metadata, magnitude, offset, period, phase } => {
            append_periodic(out, *magnitude, *offset, *period, *phase, metadata.gain);
        },
        GameEffect::Condition {
            metadata,
            kind,
            positive_coefficient,
            negative_coefficient,
            positive_saturation,
            negative_saturation,
            ..
        } => {
            append_condition(
                out,
                *kind,
                *positive_coefficient,
                *negative_coefficient,
                *positive_saturation,
                *negative_saturation,
                metadata.gain,
            );
        },
    }
}

fn append_effect_update(out: &mut String, update: &EffectUpdate)
    ensures
        final(out)@ == old(out)@ + effect_update_text(*update),
{
    match update {
        EffectUpdate::Ignore => out.append("ignore"),
        EffectUpdate::DeviceControl(command) => {
            out.append("device_control(");
            append_device_control(out, *command);
            out.append(")");
            assert(out@ =~= old(out)@ + effect_update_text(*update));
        },
        EffectUpdate::StopEffect(kind) => {
            out.append("stop(");
            append_effect_kind(out, *kind);
            out.append(")");
            assert(out@ =~= old(out)@ + effect_update_text(*update));
        },
        EffectUpdate::Apply(effect) => append_game_effect(out, effect),
    }
}

fn append_wheel_command(out: &mut String, command: &WheelCommand)
    ensures
        final(out)@ == old(out)@ + wheel_command_text(*command),
{
    match command {
        WheelCommand::Ignore => out.append("ignore"),
        WheelCommand::DeviceControl(control) => {
            out.append("device_control(");
            append_device_control(out, *control);
            out.append(")");
            assert(out@ =~= old(out)@ + wheel_command_text(*command));
        },
        WheelCommand::StopEffect(kind) => {
            out.append("stop(");
            append_effect_kind(out, *kind);
            out.append(")");
            assert(out@ =~= old(out)@ + wheel_command_text(*command));
        },
        WheelCommand::Constant(c) => {
            out.append("constant(magnitude=");
            append_i32(out, c.magnitude);
            out.append(", gain=");
            append_i32(out, c.metadata.gain);
            out.append(", direction=");
            append_i32(out, c.metadata.direction as i32);
            out.append(")");
            assert(out@ =~= old(out)@ + wheel_command_text(*command));
        },
        WheelCommand::Periodic(c) => append_periodic(
            out,
            c.magnitude,
            c.offset,
            c.period,
            c.phase,
            c.metadata.gain,
        ),
        WheelCommand::Condition(c) => append_condition(
            out,
            c.kind,
            c.positive_coefficient,
            c.negative_coefficient,
            c.positive_saturation,
            c.negative_saturation,
            c.metadata.gain,
        ),
    }
}

/// The name of an effect kind as the bridge logs it.
pub fn describe_effect_kind(kind: EffectKind) -> (r: String)
    ensures
        r@ == effect_kind_text(kind),
{
    let mut out = String::new();
    append_effect_kind(&mut out, kind);
    assert(out@ =~= effect_kind_text(kind));
    out
}

/// Describes one decoded effect update.
pub fn describe_effect_update(update: &EffectUpdate) -> (r: String)
    ensures
        r@ == effect_update_text(*update),
{
    let mut out = String::new();
    append_effect_update(&mut out, update);
    assert(out@ =~= effect_update_text(*update));
    out
}

/// Describes one effect the game asked for.
pub fn describe_game_effect(effect: &GameEffect) -> (r: String)
    ensures
        r@ == game_effect_text(*effect),
{
    let mut out = String::new();
    append_game_effect(&mut out, effect);
    assert(out@ =~= game_effect_text(*effect));
    out
}

/// Describes one wheel command.
pub fn describe_wheel_command(command: &WheelCommand) -> (r: String)
    ensures
        r@ == wheel_command_text(*command),
{
    let mut out = String::new();
    append_wheel_command(&mut out, command);
    assert(out@ =~= wheel_command_text(*command));
    out
}

proof fn lemma_joined_step(descriptions: Seq<Seq<char>>, i: int)
    requires
        0 < i < descriptions.len(),
    ensures
        joined_descriptions(descriptions.take(i + 1)) == joined_descriptions(descriptions.take(i))
            + "; "@ + descriptions[i],
{
    assert(descriptions.take(i + 1).drop_last() =~= descriptions.take(i));
}

proof fn lemma_joined_first(descriptions: Seq<Seq<char>>)
    requires
        0 < descriptions.len(),
    ensures
        joined_descriptions(descriptions.take(1)) == descriptions[0],
{
    assert(descriptions.take(1).len() == 1);
}

/// The tail that a summary adds for the items it leaves out.
fn append_more_suffix(out: &mut String, len: usize)
    ensures
        len > SUMMARY_MAX_ITEMS ==> final(out)@ == old(out)@ + "; +"@ + decimal_digits(
            (len - SUMMARY_MAX_ITEMS) as nat,
        ) + " more"@,
        len <= SUMMARY_MAX_ITEMS ==> final(out)@ == old(out)@,
{
    if len > SUMMARY_MAX_ITEMS {
        out.append("; +");
        append_decimal_u64(out, (len - SUMMARY_MAX_ITEMS) as u64);
        out.append(" more");
        assert(out@ =~= old(out)@ + "; +"@ + decimal_digits((len - SUMMARY_MAX_ITEMS) as nat)
            + " more"@);
    }
}

/// The descriptions of a list of effect updates.
pub open spec fn effect_update_texts(updates: Seq<EffectUpdate>) -> Seq<Seq<char>> {
    updates.map_values(|u: EffectUpdate| effect_update_text(u))
}

/// The descriptions of a list of wheel commands.
pub open spec fn wheel_command_texts(commands: Seq<WheelCommand>) -> Seq<Seq<char>> {
    commands.map_values(|c: WheelCommand| wheel_command_text(c))
}

/// Summarizes the effect updates of one packet for the log.
pub fn summarize_effect_updates(updates: &[EffectUpdate]) -> (r: String)
    ensures
        r@ == summary_text(effect_update_texts(updates@)),
{
    let ghost texts = effect_update_texts(updates@);
    let n = updates.len();
    if n == 0 {
        return String::from_str("none");
    }
    let shown: usize = if n > SUMMARY_MAX_ITEMS { SUMMARY_MAX_ITEMS } else { n };
    let mut out = String::new();
    let mut i: usize = 0;
    while i < shown
        invariant
            0 < shown <= n,
            n == updates@.len(),
            texts == effect_update_texts(updates@),
            i <= shown,
            out@ == joined_descriptions(texts.take(i as int)),
        decreases shown - i,
    {
        proof {
            if i == 0 {
                lemma_joined_first(texts);
            } else {
                lemma_joined_step(texts, i as int);
            }
        }
        if i > 0 {
            out.append("; ");
        }
        append_effect_update(&mut out, &updates[i]);
        proof {
            if i == 0 {
                assert(texts.take(0) =~= Seq::<Seq<char>>::empty());
                assert(out@ =~= joined_descriptions(texts.take(1)));
            }
        }
        i += 1;
    }
    if n <= SUMMARY_MAX_ITEMS {
        assert(texts.take(n as int) =~= texts);
    }
    append_more_suffix(&mut out, n);
    out
}

/// Summarizes the wheel commands applied for one packet for the log.
pub fn summarize_wheel_commands(commands: &[WheelCommand]) -> (r: String)
    ensures
        r@ == summary_text(wheel_command_texts(commands@)),
{
    let ghost texts = wheel_command_texts(commands@);
    let n = commands.len();
    if n == 0 {
        return String::from_str("none");
    }
    let shown: usize = if n > SUMMARY_MAX_ITEMS { SUMMARY_MAX_ITEMS } else { n };
    let mut out = String::new();
    let mut i: usize = 0;
    while i < shown
        invariant
            0 < shown <= n,
            n == commands@.len(),
            texts == wheel_command_texts(commands@),
            i <= shown,
            out@ == joined_descriptions(texts.take(i as int)),
        decreases shown - i,
    {
        proof {
            if i == 0 {
                lemma_joined_first(texts);
            } else {
                lemma_joined_step(texts, i as int);
            }
        }
        if i > 0 {
            out.append("; ");
        }
        append_wheel_command(&mut out, &commands[i]);
        proof {
            if i == 0 {
                assert(texts.take(0) =~= Seq::<Seq<char>>::empty());
                assert(out@ =~= joined_descriptions(texts.take(1)));
            }
        }
        i += 1;
    }
    if n <= SUMMARY_MAX_ITEMS {
        assert(texts.take(n as int) =~= texts);
    }
    append_more_suffix(&mut out, n);
    out
}

/// The label of the steering input in telemetry: `NAME [WinMM #ID]`, or `No steering input`.
pub open spec fn steering_input_label_text(input: Option<(u32, Seq<char>)>) -> Seq<char> {
    match input {
        Some((id, name)) => name + " [WinMM #"@ + decimal_digits(id as nat) + "]"@,
        None => "No steering input"@,
    }
}

/// The startup message about the steering input.
pub open spec fn steering_input_status_text(input: Option<(u32, Seq<char>)>) -> Seq<char> {
    match input {
        Some((id, name)) => "using WinMM input device "@ + decimal_digits(id as nat) + " ("@ + name
            + ") for live steering-state updates"@,
        None => "no live steering input selected; run 'Torquebridge list-inputs' and pass --steering-device <id> to enable steering-state updates"@,
    }
}

/// The id and name of an optional joystick.
pub open spec fn joystick_identity(input: Option<&WinmmJoystick>) -> Option<(u32, Seq<char>)> {
    match input {
        Some(j) => Some((j.id_spec(), j.name_spec())),
        None => None,
    }
}

/// The label of the steering input in telemetry.
pub fn steering_input_label(input: Option<&WinmmJoystick>) -> (r: String)
    ensures
        r@ == steering_input_label_text(joystick_identity(input)),
{
    match input {
        Some(joystick) => {
            let mut out = String::new();
            out.append(joystick.name());
            out.append(" [WinMM #");
            append_decimal_u64(&mut out, joystick.id() as u64);
            out.append("]");
            assert(out@ =~= steering_input_label_text(joystick_identity(input)));
            out
        },
        None => String::from_str("No steering input"),
    }
}

/// The startup message about the steering input.
pub fn steering_input_status_message(input: Option<&WinmmJoystick>) -> (r: String)
    ensures
        r@ == steering_input_status_text(joystick_identity(input)),
{
    match input {
        Some(joystick) => {
            let mut out = String::new();
            out.append("using WinMM input device ");
            append_decimal_u64(&mut out, joystick.id() as u64);
            out.append(" (");
            out.append(joystick.name());
            out.append(") for live steering-state updates");
            assert(out@ =~= steering_input_status_text(joystick_identity(input)));
            out
        },
        None => String::from_str(
            "no live steering input selected; run 'Torquebridge list-inputs' and pass --steering-device <id> to enable steering-state updates",
        ),
    }
}

} // verus!
