use vstd::prelude::*;

verus! {

/// The build options of the board that change how a converter is brought up.
#[derive(Clone, Copy, Debug, PartialEq, Eq, Structural)]
pub struct AdcFeatures {
    /// Temperature or pressure sensing: bias voltage, gain and sensor bias are set.
    pub temperature_or_pressure: bool,
    /// Strain sensing: the reset flag, the digital filter and the data rate are set.
    pub strain: bool,
}

/// A command of the converter's command set that the bring-up sends.
#[derive(Clone, Copy, Debug, PartialEq, Eq, Structural)]
pub enum AdcCommand {
    Stop1,
    Stop2,
    Start1,
    Start2,
}

/// The power register value that is written: the default with one change.
#[derive(Clone, Copy, Debug, PartialEq, Eq, Structural)]
pub enum PowerSetting {
    /// The bias voltage is turned off.
    VbiasOff,
    /// The reset flag is cleared.
    ResetCleared,
}

/// The MODE1 register value that is written: the default with one change.
#[derive(Clone, Copy, Debug, PartialEq, Eq, Structural)]
pub enum Mode1Setting {
    /// Sensor bias magnitude of 10 MOhm.
    SensorBias10MOhm,
    /// Sinc1 digital filter.
    FilterSinc1,
}

/// The MODE2 register value that is written: the default with one change.
#[derive(Clone, Copy, Debug, PartialEq, Eq, Structural)]
pub enum Mode2Setting {
    /// Amplifier gain of 32 V/V.
    Gain32,
    /// Data rate of 1200 samples per second.
    DataRate1200,
}

/// One operation of the bring-up of a converter.
#[derive(Clone, Copy, Debug, PartialEq, Eq, Structural)]
pub enum InitStep {
    /// Select the first converter on the bus.
    SelectAdc1,
    /// Drive the converter's reset line high.
    ResetHigh,
    /// Busy-wait for the given number of processor cycles.
    Delay(u32),
    /// Send a command.
    Command(AdcCommand),
    /// Write the power register.
    WritePower(PowerSetting),
    /// Write the MODE1 register.
    WriteMode1(Mode1Setting),
    /// Write the MODE2 register.
    WriteMode2(Mode2Setting),
    /// Read the MODE1 register back.
    ReadMode1,
    /// Read the MODE2 register back.
    ReadMode2,
}

/// Why a bring-up stopped the firmware.
#[derive(Clone, Copy, Debug, PartialEq, Eq, Structural)]
pub enum InitFault {
    /// A register write whose failure is not recoverable failed.
    StepFailed,
    /// MODE1 read back lacks bits that were written.
    Mode1Mismatch,
    /// MODE2 read back lacks bits that were written.
    Mode2Mismatch,
}

/// What the firmware does next during a bring-up.
pub enum InitAction<E> {
    /// Perform this operation and report its outcome.
    Perform(InitStep),
    /// The bring-up is over, with this result.
    Finish(Result<(), E>),
    /// The bring-up cannot go on: stop the firmware.
    Halt(InitFault),
}

/// The number of cycles waited after the reset line is raised (2^16).
pub const RESET_DELAY_CYCLES: u32 = 65536;

/// The operations that configure a temperature or pressure sensor.
pub open spec fn temperature_steps() -> Seq<InitStep> {
    seq![
        InitStep::WritePower(PowerSetting::VbiasOff),
        InitStep::WriteMode2(Mode2Setting::Gain32),
        InitStep::WriteMode1(Mode1Setting::SensorBias10MOhm),
        InitStep::ReadMode1,
        InitStep::ReadMode2,
    ]
}

/// The operations that configure a strain gauge.
pub open spec fn strain_steps() -> Seq<InitStep> {
    seq![
        InitStep::WritePower(PowerSetting::ResetCleared),
        InitStep::WriteMode1(Mode1Setting::FilterSinc1),
        InitStep::WriteMode2(Mode2Setting::DataRate1200),
        InitStep::ReadMode1,
        InitStep::ReadMode2,
    ]
}

/// The operations of the bring-up, in order: select, reset, wait, stop the
/// conversions, configure the sensor(s), start the conversions.
pub open spec fn spec_init_plan(f: AdcFeatures) -> Seq<InitStep> {
    seq![
        InitStep::SelectAdc1,
        InitStep::ResetHigh,
        InitStep::Delay(RESET_DELAY_CYCLES),
        InitStep::Command(AdcCommand::Stop1),
        InitStep::Command(AdcCommand::Stop2),
    ]
    + (if f.temperature_or_pressure { temperature_steps() } else { Seq::empty() })
    + (if f.strain { strain_steps() } else { Seq::empty() })
    + seq![InitStep::Command(AdcCommand::Start1), InitStep::Command(AdcCommand::Start2)]
}

/// Whether a failure of `step` stops the firmware rather than being returned.
pub open spec fn halts_on_failure(step: InitStep) -> bool {
    match step {
        InitStep::WritePower(PowerSetting::VbiasOff) => true,
        InitStep::WriteMode2(Mode2Setting::Gain32) => true,
        InitStep::WriteMode1(Mode1Setting::SensorBias10MOhm) => true,
        _ => false,
    }
}

/// A register that was written reads back acceptably when every bit set in
/// the written value is set in the value read.
pub open spec fn readback_confirms(written: u8, read: u8) -> bool {
    written & !read == 0
}

/// Whether the value read back holds every bit of the value written.
pub fn check_readback(written: u8, read: u8) -> (ok: bool)
    ensures
        ok == readback_confirms(written, read),
{
    written & !read == 0
}

/// Whether bit `i` of `x` is set.
pub open spec fn bit_set(x: u8, i: u8) -> bool {
    (x >> i) & 1 == 1
}

/// The read-back check accepts exactly the values read that keep every bit
/// that was written, which are the written value with any further bits set;
/// so it accepts a register that reads back unchanged.
pub proof fn lemma_readback_bits(written: u8, read: u8)
    ensures
        readback_confirms(written, read) <==> (forall|i: u8|
            i < 8 ==> (#[trigger] bit_set(written, i) ==> bit_set(read, i))),
        readback_confirms(written, read) <==> read == (written | read),
        readback_confirms(written, written | read),
        readback_confirms(written, written),
{
    assert(written & !read == 0 <==> read == (written | read)) by (bit_vector);
    assert(written & !(written | read) == 0) by (bit_vector);
    if readback_confirms(written, read) {
        assert forall|i: u8| i < 8 && #[trigger] bit_set(written, i) implies bit_set(read, i) by {
            assert(written & !read == 0 && i < 8 ==> ((written >> i) & 1 == 1 ==> (read >> i) & 1 == 1))
                by (bit_vector);
        }
    }
    if forall|i: u8| i < 8 ==> (#[trigger] bit_set(written, i) ==> bit_set(read, i)) {
        assert(bit_set(written, 0) ==> bit_set(read, 0));
        assert(bit_set(written, 1) ==> bit_set(read, 1));
        assert(bit_set(written, 2) ==> bit_set(read, 2));
        assert(bit_set(written, 3) ==> bit_set(read, 3));
        assert(bit_set(written, 4) ==> bit_set(read, 4));
        assert(bit_set(written, 5) ==> bit_set(read, 5));
        assert(bit_set(written, 6) ==> bit_set(read, 6));
        assert(bit_set(written, 7) ==> bit_set(read, 7));
        assert(written & !read == 0) by (bit_vector)
            requires
                (written >> 0u8) & 1 == 1 ==> (read >> 0u8) & 1 == 1,
                (written >> 1u8) & 1 == 1 ==> (read >> 1u8) & 1 == 1,
                (written >> 2u8) & 1 == 1 ==> (read >> 2u8) & 1 == 1,
                (written >> 3u8) & 1 == 1 ==> (read >> 3u8) & 1 == 1,
                (written >> 4u8) & 1 == 1 ==> (read >> 4u8) & 1 == 1,
                (written >> 5u8) & 1 == 1 ==> (read >> 5u8) & 1 == 1,
                (written >> 6u8) & 1 == 1 ==> (read >> 6u8) & 1 == 1,
                (written >> 7u8) & 1 == 1 ==> (read >> 7u8) & 1 == 1,
        ;
    }
    assert(written & !written == 0) by (bit_vector);
}

/// The operations of the bring-up for the given board options.
pub fn init_plan(f: AdcFeatures) -> (plan: Vec<InitStep>)
    ensures
        plan@ == spec_init_plan(f),
{
    let mut plan: Vec<InitStep> = Vec::new();
    plan.push(InitStep::SelectAdc1);
    plan.push(InitStep::ResetHigh);
    plan.push(InitStep::Delay(RESET_DELAY_CYCLES));
    plan.push(InitStep::Command(AdcCommand::Stop1));
    plan.push(InitStep::Command(AdcCommand::Stop2));
    if f.temperature_or_pressure {
        plan.push(InitStep::WritePower(PowerSetting::VbiasOff));
        plan.push(InitStep::WriteMode2(Mode2Setting::Gain32));
        plan.push(InitStep::WriteMode1(Mode1Setting::SensorBias10MOhm));
        plan.push(InitStep::ReadMode1);
        plan.push(InitStep::ReadMode2);
    }
    if f.strain {
        plan.push(InitStep::WritePower(PowerSetting::ResetCleared));
        plan.push(InitStep::WriteMode1(Mode1Setting::FilterSinc1));
        plan.push(InitStep::WriteMode2(Mode2Setting::DataRate1200));
        plan.push(InitStep::ReadMode1);
        plan.push(InitStep::ReadMode2);
    }
    plan.push(InitStep::Command(AdcCommand::Start1));
    plan.push(InitStep::Command(AdcCommand::Start2));
    assert(plan@ =~= spec_init_plan(f));
    plan
}

/// The state of a bring-up, as the contracts see it.
pub struct InitState {
    pub features: AdcFeatures,
    /// Index in the plan of the operation whose outcome is awaited.
    pub position: nat,
    /// The MODE1 bits last written.
    pub written_mode1: u8,
    /// The MODE2 bits last written.
    pub written_mode2: u8,
    /// The MODE1 bits last read back.
    pub read_mode1: u8,
    /// Whether the bring-up is over.
    pub finished: bool,
}

/// The state of a bring-up that has not performed anything yet.
pub open spec fn initial_state(f: AdcFeatures) -> InitState {
    InitState {
        features: f,
        position: 0,
        written_mode1: 0,
        written_mode2: 0,
        read_mode1: 0,
        finished: false,
    }
}

/// `s` after the register value `v` of a successful `step` was recorded.
pub open spec fn record(s: InitState, step: InitStep, v: u8) -> InitState {
    match step {
        InitStep::WriteMode1(_) => InitState { written_mode1: v, ..s },
        InitStep::WriteMode2(_) => InitState { written_mode2: v, ..s },
        InitStep::ReadMode1 => InitState { read_mode1: v, ..s },
        _ => s,
    }
}

/// The next state and action of a bring-up in state `s` once the operation
/// it waits for has reported `outcome`: the value in an `Ok` outcome is the
/// register's bits for a register write or read, and is ignored otherwise.
/// A failure ends the bring-up, returning the error, or stopping the firmware
/// for a write whose failure is not recoverable. Once MODE2 was read back,
/// both mode registers must hold every bit written to them. After the last
/// operation the bring-up ends successfully.
pub open spec fn spec_advance<E>(s: InitState, outcome: Result<u8, E>) -> (InitState, InitAction<E>) {
    let plan = spec_init_plan(s.features);
    let step = plan[s.position as int];
    let done = InitState { finished: true, ..s };
    match outcome {
        Err(e) => if halts_on_failure(step) {
            (done, InitAction::Halt(InitFault::StepFailed))
        } else {
            (done, InitAction::Finish(Err(e)))
        },
        Ok(v) => {
            let s1 = record(s, step, v);
            if step == InitStep::ReadMode2 && !readback_confirms(s1.written_mode1, s1.read_mode1) {
                (InitState { finished: true, ..s1 }, InitAction::Halt(InitFault::Mode1Mismatch))
            } else if step == InitStep::ReadMode2 && !readback_confirms(s1.written_mode2, v) {
                (InitState { finished: true, ..s1 }, InitAction::Halt(InitFault::Mode2Mismatch))
            } else if s.position + 1 >= plan.len() {
                (InitState { finished: true, ..s1 }, InitAction::Finish(Ok(())))
            } else {
                (
                    InitState { position: s.position + 1, ..s1 },
                    InitAction::Perform(plan[s.position + 1 as int]),
                )
            }
        },
    }
}

/// A bring-up in progress: it says which operation to perform, and is told
/// how each went.
pub struct AdcInit {
    plan: Vec<InitStep>,
    features: AdcFeatures,
    position: usize,
    written_mode1: u8,
    written_mode2: u8,
    read_mode1: u8,
    finished: bool,
}

impl AdcInit {
    /// The state of the bring-up. The plan it follows is no part of it: `wf`
    /// fixes the plan to `spec_init_plan` of the options in the state.
    pub closed spec fn model(&self) -> InitState {
        InitState {
            features: self.features,
            position: self.position as nat,
            written_mode1: self.written_mode1,
            written_mode2: self.written_mode2,
            read_mode1: self.read_mode1,
            finished: self.finished,
        }
    }

    /// The bring-up follows the plan of its options and stands on one of its operations.
    pub closed spec fn wf(&self) -> bool {
        &&& self.plan@ == spec_init_plan(self.features)
        &&& self.position < self.plan@.len()
    }

    /// A bring-up that has not performed anything yet; its first operation is
    /// the first of the plan.
    pub fn new(features: AdcFeatures) -> (r: Self)
        ensures
            r.wf(),
            r.model() == initial_state(features),
    {
        AdcInit {
            plan: init_plan(features),
            features,
            position: 0,
            written_mode1: 0,
            written_mode2: 0,
            read_mode1: 0,
            finished: false,
        }
    }

    /// The operation whose outcome the bring-up waits for.
    pub fn current_step(&self) -> (step: InitStep)
        requires
            self.wf(),
        ensures
            step == spec_init_plan(self.model().features)[self.model().position as int],
    {
        self.plan[self.position]
    }

    /// Whether the bring-up is over.
    pub fn is_finished(&self) -> (r: bool)
        ensures
            r == self.model().finished,
    {
        self.finished
    }

    /// Takes the outcome of the current operation and says what to do next.
    pub fn advance<E>(&mut self, outcome: Result<u8, E>) -> (action: InitAction<E>)
        requires
            old(self).wf(),
            !old(self).model().finished,
        ensures
            final(self).wf(),
            (final(self).model(), action) == spec_advance(old(self).model(), outcome),
    {
        let step = self.plan[self.position];
        match outcome {
            Err(e) => {
                self.finished = true;
                let halts = match step {
                    InitStep::WritePower(PowerSetting::VbiasOff) => true,
                    InitStep::WriteMode2(Mode2Setting::Gain32) => true,
                    InitStep::WriteMode1(Mode1Setting::SensorBias10MOhm) => true,
                    _ => false,
                };
                if halts {
                    InitAction::Halt(InitFault::StepFailed)
                } else {
                    InitAction::Finish(Err(e))
                }
            },
            Ok(v) => {
                match step {
                    InitStep::WriteMode1(_) => { self.written_mode1 = v; },
                    InitStep::WriteMode2(_) => { self.written_mode2 = v; },
                    InitStep::ReadMode1 => { self.read_mode1 = v; },
                    _ => {},
                }
                let is_read2 = match step {
                    InitStep::ReadMode2 => true,
                    _ => false,
                };
                if is_read2 && !check_readback(self.written_mode1, self.read_mode1) {
                    self.finished = true;
                    InitAction::Halt(InitFault::Mode1Mismatch)
                } else if is_read2 && !check_readback(self.written_mode2, v) {
                    self.finished = true;
                    InitAction::Halt(InitFault::Mode2Mismatch)
                } else if self.position + 1 >= self.plan.len() {
                    self.finished = true;
                    InitAction::Finish(Ok(()))
                } else {
                    self.position = self.position + 1;
                    InitAction::Perform(self.plan[self.position])
                }
            },
        }
    }
}

/// The actions of a bring-up from state `s` that is told `outcomes`, one
/// outcome per action, until it is over or the outcomes run out.
pub open spec fn spec_run<E>(s: InitState, outcomes: Seq<Result<u8, E>>) -> Seq<InitAction<E>>
    decreases outcomes.len(),
{
    if outcomes.len() == 0 || s.finished {
        Seq::empty()
    } else {
        let (s2, a) = spec_advance(s, outcomes[0]);
        seq![a] + spec_run(s2, outcomes.drop_first())
    }
}

/// The outcomes that a converter reports from operation `p` of `plan` on when
/// every operation succeeds: a register write reports the bits written, here
/// `written[p]`; a register read reports what the register holds (`m1` or `m2`
/// until it is written) with the bits of `written[p]` set as well, which covers
/// every value that the read-back check accepts (see `lemma_readback_bits`); any
/// other operation reports `written[p]`, which is ignored.
pub open spec fn device_outcomes<E>(
    plan: Seq<InitStep>,
    written: Seq<u8>,
    p: nat,
    m1: u8,
    m2: u8,
) -> Seq<Result<u8, E>>
    decreases plan.len() - p,
{
    if p >= plan.len() {
        Seq::empty()
    } else {
        match plan[p as int] {
            InitStep::WriteMode1(_) => seq![Ok(written[p as int])] + device_outcomes(
                plan,
                written,
                p + 1,
                written[p as int],
                m2,
            ),
            InitStep::WriteMode2(_) => seq![Ok(written[p as int])] + device_outcomes(
                plan,
                written,
                p + 1,
                m1,
                written[p as int],
            ),
            InitStep::ReadMode1 => seq![Ok(m1 | written[p as int])] + device_outcomes(
                plan,
                written,
                p + 1,
                m1,
                m2,
            ),
            InitStep::ReadMode2 => seq![Ok(m2 | written[p as int])] + device_outcomes(
                plan,
                written,
                p + 1,
                m1,
                m2,
            ),
            _ => seq![Ok(written[p as int])] + device_outcomes(plan, written, p + 1, m1, m2),
        }
    }
}

/// The actions that perform `steps` in order.
pub open spec fn performs<E>(steps: Seq<InitStep>) -> Seq<InitAction<E>> {
    steps.map_values(|st: InitStep| InitAction::<E>::Perform(st))
}

/// From operation `p` on, MODE1 is written before it is read (or not touched).
pub open spec fn mode1_written_first(plan: Seq<InitStep>, p: nat) -> bool
    decreases plan.len() - p,
{
    if p >= plan.len() {
        true
    } else {
        match plan[p as int] {
            InitStep::WriteMode1(_) => true,
            InitStep::ReadMode1 => false,
            _ => mode1_written_first(plan, p + 1),
        }
    }
}

/// From operation `p` on, MODE2 is written before it is read (or not touched).
pub open spec fn mode2_written_first(plan: Seq<InitStep>, p: nat) -> bool
    decreases plan.len() - p,
{
    if p >= plan.len() {
        true
    } else {
        match plan[p as int] {
            InitStep::WriteMode2(_) => true,
            InitStep::ReadMode2 => false,
            _ => mode2_written_first(plan, p + 1),
        }
    }
}

/// The registers a bring-up recorded agree with a converter that holds `m1`
/// and `m2` wherever the rest of the plan reads them before writing them.
spec fn registers_agree(s: InitState, m1: u8, m2: u8) -> bool {
    let plan = spec_init_plan(s.features);
    &&& (s.written_mode1 == m1 || mode1_written_first(plan, s.position))
    &&& (s.written_mode2 == m2 || mode2_written_first(plan, s.position))
    &&& (plan[s.position as int] == InitStep::ReadMode2 ==> s.written_mode1 == m1
        && readback_confirms(m1, s.read_mode1))
}

/// The four plans, written out.
spec fn plan_literal(f: AdcFeatures) -> Seq<InitStep> {
    if f.temperature_or_pressure && f.strain {
        seq![
            InitStep::SelectAdc1, InitStep::ResetHigh, InitStep::Delay(RESET_DELAY_CYCLES),
            InitStep::Command(AdcCommand::Stop1), InitStep::Command(AdcCommand::Stop2),
            InitStep::WritePower(PowerSetting::VbiasOff), InitStep::WriteMode2(Mode2Setting::Gain32),
            InitStep::WriteMode1(Mode1Setting::SensorBias10MOhm), InitStep::ReadMode1, InitStep::ReadMode2,
            InitStep::WritePower(PowerSetting::ResetCleared), InitStep::WriteMode1(Mode1Setting::FilterSinc1),
            InitStep::WriteMode2(Mode2Setting::DataRate1200), InitStep::ReadMode1, InitStep::ReadMode2,
            InitStep::Command(AdcCommand::Start1), InitStep::Command(AdcCommand::Start2)]
    } else if f.temperature_or_pressure {
        seq![
            InitStep::SelectAdc1, InitStep::ResetHigh, InitStep::Delay(RESET_DELAY_CYCLES),
            InitStep::Command(AdcCommand::Stop1), InitStep::Command(AdcCommand::Stop2),
            InitStep::WritePower(PowerSetting::VbiasOff), InitStep::WriteMode2(Mode2Setting::Gain32),
            InitStep::WriteMode1(Mode1Setting::SensorBias10MOhm), InitStep::ReadMode1, InitStep::ReadMode2,
            InitStep::Command(AdcCommand::Start1), InitStep::Command(AdcCommand::Start2)]
    } else if f.strain {
        seq![
            InitStep::SelectAdc1, InitStep::ResetHigh, InitStep::Delay(RESET_DELAY_CYCLES),
            InitStep::Command(AdcCommand::Stop1), InitStep::Command(AdcCommand::Stop2),
            InitStep::WritePower(PowerSetting::ResetCleared), InitStep::WriteMode1(Mode1Setting::FilterSinc1),
            InitStep::WriteMode2(Mode2Setting::DataRate1200), InitStep::ReadMode1, InitStep::ReadMode2,
            InitStep::Command(AdcCommand::Start1), InitStep::Command(AdcCommand::Start2)]
    } else {
        seq![
            InitStep::SelectAdc1, InitStep::ResetHigh, InitStep::Delay(RESET_DELAY_CYCLES),
            InitStep::Command(AdcCommand::Stop1), InitStep::Command(AdcCommand::Stop2),
            InitStep::Command(AdcCommand::Start1), InitStep::Command(AdcCommand::Start2)]
    }
}

/// Each plan is the one written out in `plan_literal`.
proof fn lemma_plan_unfold(f: AdcFeatures)
    ensures
        spec_init_plan(f) == plan_literal(f),
{
    assert(spec_init_plan(f) =~= plan_literal(f));
}

/// Each plan reads MODE2 right after MODE1, and writes each mode register
/// before reading it.
proof fn lemma_plan_register_order(f: AdcFeatures)
    ensures
        forall|q: int|
            0 < q < spec_init_plan(f).len() && #[trigger] spec_init_plan(f)[q] == InitStep::ReadMode2
                ==> spec_init_plan(f)[q - 1] == InitStep::ReadMode1,
        spec_init_plan(f)[0] != InitStep::ReadMode2,
        mode1_written_first(spec_init_plan(f), 0),
        mode2_written_first(spec_init_plan(f), 0),
{
    reveal_with_fuel(mode1_written_first, 9);
    reveal_with_fuel(mode2_written_first, 9);
    lemma_plan_unfold(f);
}

/// Whether `step` reads or writes a register of the converter.
pub open spec fn is_register_access(step: InitStep) -> bool {
    match step {
        InitStep::WritePower(_) | InitStep::WriteMode1(_) | InitStep::WriteMode2(_)
        | InitStep::ReadMode1 | InitStep::ReadMode2 => true,
        _ => false,
    }
}

/// The bring-up selects, resets and waits, then stops both conversions;
/// every register is read or written after that and before both conversions
/// are started again, which are the last two operations. Each enabled sensor
/// adds five register operations.
pub proof fn lemma_plan_shape(f: AdcFeatures)
    ensures
        ({
            let plan = spec_init_plan(f);
            let n = plan.len() as int;
            &&& n == 7 + (if f.temperature_or_pressure { 5int } else { 0 }) + (if f.strain { 5int } else { 0 })
            &&& plan[0] == InitStep::SelectAdc1
            &&& plan[1] == InitStep::ResetHigh
            &&& plan[2] == InitStep::Delay(RESET_DELAY_CYCLES)
            &&& plan[3] == InitStep::Command(AdcCommand::Stop1)
            &&& plan[4] == InitStep::Command(AdcCommand::Stop2)
            &&& plan[n - 2] == InitStep::Command(AdcCommand::Start1)
            &&& plan[n - 1] == InitStep::Command(AdcCommand::Start2)
            &&& forall|i: int| 5 <= i < n - 2 ==> is_register_access(#[trigger] plan[i])
        }),
{
    lemma_plan_unfold(f);
}

/// From any state that agrees with the converter, a run of successful
/// operations performs the rest of the plan and ends successfully.
proof fn lemma_run_from<E>(s: InitState, written: Seq<u8>, m1: u8, m2: u8)
    requires
        written.len() == spec_init_plan(s.features).len(),
        s.position < spec_init_plan(s.features).len(),
        !s.finished,
        registers_agree(s, m1, m2),
    ensures
        spec_run::<E>(s, device_outcomes::<E>(spec_init_plan(s.features), written, s.position, m1, m2))
            == performs::<E>(spec_init_plan(s.features).subrange(s.position + 1 as int, spec_init_plan(s.features).len() as int))
                + seq![InitAction::<E>::Finish(Ok(()))],
    decreases spec_init_plan(s.features).len() - s.position,
{
    let plan = spec_init_plan(s.features);
    let pn = s.position;
    let p = s.position as int;
    let len = plan.len();
    lemma_plan_register_order(s.features);
    let step = plan[p];
    let (o, m1n, m2n) = match step {
        InitStep::WriteMode1(_) => (Ok::<u8, E>(written[p]), written[p], m2),
        InitStep::WriteMode2(_) => (Ok::<u8, E>(written[p]), m1, written[p]),
        InitStep::ReadMode1 => (Ok::<u8, E>(m1 | written[p]), m1, m2),
        InitStep::ReadMode2 => (Ok::<u8, E>(m2 | written[p]), m1, m2),
        _ => (Ok::<u8, E>(written[p]), m1, m2),
    };
    let outs = device_outcomes::<E>(plan, written, pn, m1, m2);
    let rest = device_outcomes::<E>(plan, written, pn + 1, m1n, m2n);
    assert(outs == seq![o] + rest);
    assert(outs[0] == o);
    assert(outs.drop_first() =~= rest);
    let (s2, a) = spec_advance(s, o);
    lemma_readback_bits(m1, written[p]);
    lemma_readback_bits(m2, written[p]);
    if p + 1 >= len {
        assert(a == InitAction::<E>::Finish(Ok(())));
        assert(rest.len() == 0);
        assert(plan.subrange(p + 1, len as int).len() == 0);
        assert(performs::<E>(plan.subrange(p + 1, len as int)) =~= Seq::<InitAction<E>>::empty());
        assert(s2.finished);
        assert(spec_run(s2, outs.drop_first()) =~= Seq::<InitAction<E>>::empty());
        assert(spec_run(s, outs) =~= seq![a]);
    } else {
        assert(a == InitAction::<E>::Perform(plan[p + 1]));
        assert(s2.position == p + 1 && !s2.finished && s2.features == s.features);
        if step == InitStep::ReadMode2 {
            assert(plan[p + 1] != InitStep::ReadMode2);
        } else {
            if plan[p + 1] == InitStep::ReadMode2 {
                assert(plan[p + 1 - 1] == InitStep::ReadMode1);
            }
        }
        assert(registers_agree(s2, m1n, m2n));
        lemma_run_from::<E>(s2, written, m1n, m2n);
        assert(performs::<E>(plan.subrange(p + 1, len as int)) =~= seq![a] + performs::<E>(
            plan.subrange(p + 2, len as int),
        ));
    }
}

/// A bring-up whose every operation succeeds, on a converter whose mode
/// registers read back every bit written to them (with any further bits set),
/// performs every operation of its plan in order (the first is given by `AdcInit::current_step` before any
/// outcome) and then ends successfully.
pub proof fn lemma_successful_bring_up<E>(f: AdcFeatures, written: Seq<u8>, m1: u8, m2: u8)
    requires
        written.len() == spec_init_plan(f).len(),
    ensures
        spec_run::<E>(initial_state(f), device_outcomes::<E>(spec_init_plan(f), written, 0, m1, m2))
            == performs::<E>(spec_init_plan(f).drop_first()) + seq![InitAction::<E>::Finish(Ok(()))],
{
    lemma_plan_register_order(f);
    assert(registers_agree(initial_state(f), m1, m2));
    lemma_run_from::<E>(initial_state(f), written, m1, m2);
    assert(spec_init_plan(f).subrange(1, spec_init_plan(f).len() as int) =~= spec_init_plan(f).drop_first());
}

/// A failed operation ends the bring-up: its last action is the error
/// returned, or a stop of the firmware for a write whose failure is not
/// recoverable, and nothing is performed after it.
pub proof fn lemma_failure_is_final<E>(s: InitState, e: E, rest: Seq<Result<u8, E>>)
    requires
        !s.finished,
    ensures
        spec_run(s, seq![Err(e)] + rest) == seq![
            if halts_on_failure(spec_init_plan(s.features)[s.position as int]) {
                InitAction::<E>::Halt(InitFault::StepFailed)
            } else {
                InitAction::<E>::Finish(Err(e))
            },
        ],
{
    let outs = seq![Err(e)] + rest;
    assert(outs[0] == Err::<u8, E>(e));
    let (s2, a) = spec_advance(s, outs[0]);
    assert(s2.finished);
    assert(spec_run(s2, outs.drop_first()) == Seq::<InitAction<E>>::empty());
    assert(spec_run(s, outs) =~= seq![a]);
}

/// The read-back of the mode registers is checked in every build: once MODE2
/// was read, a bring-up stops the firmware when a bit written to MODE1 is
/// missing from the MODE1 bits read (checked first), or a bit written to MODE2
/// is missing from the MODE2 bits just read; when both read-backs hold every
/// written bit it does not stop the firmware.
pub proof fn lemma_readback_mismatch_halts<E>(s: InitState, v: u8)
    requires
        !s.finished,
        s.position < spec_init_plan(s.features).len(),
        spec_init_plan(s.features)[s.position as int] == InitStep::ReadMode2,
    ensures
        s.written_mode1 & !s.read_mode1 != 0 ==> spec_advance::<E>(s, Ok(v)).1
            == InitAction::<E>::Halt(InitFault::Mode1Mismatch),
        s.written_mode1 & !s.read_mode1 == 0 && s.written_mode2 & !v != 0 ==> spec_advance::<E>(s, Ok(v)).1
            == InitAction::<E>::Halt(InitFault::Mode2Mismatch),
        s.written_mode1 & !s.read_mode1 == 0 && s.written_mode2 & !v == 0 ==> !(spec_advance::<E>(s, Ok(v)).1
            is Halt),
        spec_advance::<E>(s, Ok(v)).0.finished == !(spec_advance::<E>(s, Ok(v)).1 is Perform),
{
}

/// A failed operation stops the firmware exactly when it is one of the three
/// writes of the temperature or pressure configuration (power with the bias
/// voltage off, MODE2 with a gain of 32, MODE1 with a 10 MOhm sensor bias);
/// any other failed operation ends the bring-up returning that very error.
/// Either way the bring-up is over.
pub proof fn lemma_failure_action<E>(s: InitState, e: E)
    requires
        !s.finished,
    ensures
        ({
            let step = spec_init_plan(s.features)[s.position as int];
            let (s2, a) = spec_advance::<E>(s, Err(e));
            &&& s2.finished
            &&& (step == InitStep::WritePower(PowerSetting::VbiasOff)
                || step == InitStep::WriteMode2(Mode2Setting::Gain32)
                || step == InitStep::WriteMode1(Mode1Setting::SensorBias10MOhm))
                ==> a == InitAction::<E>::Halt(InitFault::StepFailed)
            &&& !(step == InitStep::WritePower(PowerSetting::VbiasOff)
                || step == InitStep::WriteMode2(Mode2Setting::Gain32)
                || step == InitStep::WriteMode1(Mode1Setting::SensorBias10MOhm))
                ==> a == InitAction::<E>::Finish(Err(e))
        }),
{
}

} // verus!
