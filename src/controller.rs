use crate::control::{compute_duty, duty_for, DutyCycle, Temperature};
use crate::sensor::{parse_temperature, reading_of};
use vstd::prelude::*;

verus! {

/// The index of the output pin that drives the fan.
pub const FAN_PIN: u8 = 12;

/// The PWM carrier frequency, in hertz.
pub const PWM_FREQUENCY_HZ: u32 = 50;

/// The duty cycle the pin is configured with before the first reading, in
/// percent: below the control law's minimum, as a low-power default.
pub const STARTUP_DUTY_PERCENT: u32 = 10;

/// The pause between two control cycles, in seconds.
pub const SAMPLE_INTERVAL_SECS: u64 = 15;

/// The sensor source could not be read.
#[derive(Clone, Debug, PartialEq, Eq)]
pub struct SensorError {
    pub message: String,
}

/// The output pin could not be claimed, configured or written.
#[derive(Clone, Debug, PartialEq, Eq)]
pub struct HardwareError {
    pub message: String,
}

/// A failure that ends the control loop.
#[derive(Clone, Debug, PartialEq, Eq)]
pub enum ControlError {
    Sensor(SensorError),
    Hardware(HardwareError),
}

/// Where the control loop stands. Every phase but `Terminated` is part of
/// running; `Terminated` is final.
#[derive(Clone, Copy, Debug, PartialEq, Eq)]
pub enum Phase {
    /// The pin has yet to be configured.
    Starting,
    /// A sensor reading is awaited.
    Sampling,
    /// The duty cycle for the last reading is being written to the pin.
    Commanding { temperature: Temperature, duty: DutyCycle },
    /// The status of the cycle is being reported.
    Reporting { temperature: Temperature, duty: DutyCycle },
    /// The loop pauses before the next reading.
    Waiting,
    /// A failure ended the loop.
    Terminated,
}

/// The outcome of an action, handed back to the controller.
#[derive(Debug, PartialEq, Eq)]
pub enum Event {
    /// The pin was configured for PWM, or could not be.
    Configured(Result<(), HardwareError>),
    /// The sensor's text, or why it could not be read.
    SensorRead(Result<String, SensorError>),
    /// The duty cycle was written to the pin, or could not be.
    DutySet(Result<(), HardwareError>),
    /// The status line was emitted.
    Reported,
    /// The pause is over.
    Woke,
}

/// What the caller is to do next.
#[derive(Clone, Debug, PartialEq, Eq)]
pub enum Action {
    /// Claim output pin `pin` and start PWM on it.
    Configure { pin: u8, frequency_hz: u32, duty: DutyCycle },
    /// Read the sensor's text.
    ReadSensor,
    /// Write the duty cycle to the pin.
    SetDuty { frequency_hz: u32, duty: DutyCycle },
    /// Emit one status line with the temperature and the duty cycle.
    Report { temperature: Temperature, duty: DutyCycle },
    /// Pause for `seconds`.
    Sleep { seconds: u64 },
    /// Stop with `error`.
    Exit { error: ControlError },
    /// Nothing is left to do: the loop has ended.
    Halt,
}

/// The action that phase `p` waits on.
pub open spec fn is_pending(p: Phase, a: Action) -> bool {
    match p {
        Phase::Starting => a matches Action::Configure { pin, frequency_hz, duty } && pin == FAN_PIN
            && frequency_hz == PWM_FREQUENCY_HZ && duty@ == STARTUP_DUTY_PERCENT * 10_000,
        Phase::Sampling => a == Action::ReadSensor,
        Phase::Commanding { temperature, duty } => a == (Action::SetDuty {
            frequency_hz: PWM_FREQUENCY_HZ,
            duty,
        }),
        Phase::Reporting { temperature, duty } => a == (Action::Report { temperature, duty }),
        Phase::Waiting => a == (Action::Sleep { seconds: SAMPLE_INTERVAL_SECS }),
        Phase::Terminated => a == Action::Halt,
    }
}

/// The loop moves on to phase `q` and asks for what `q` waits on.
pub open spec fn moves_to(q: Phase, next: Phase, a: Action) -> bool {
    next == q && is_pending(q, a)
}

/// The loop ends with `error`.
pub open spec fn ends_with(error: ControlError, next: Phase, a: Action) -> bool {
    next == Phase::Terminated && a == (Action::Exit { error })
}

/// One step of the loop: in phase `p`, event `e` leads to phase `next` and
/// action `a`. A reading sets the duty cycle by the control law; any failure
/// ends the loop at once; an event that does not answer the pending action
/// changes nothing and the pending action is asked for again.
pub open spec fn is_step(p: Phase, e: Event, next: Phase, a: Action) -> bool {
    match e {
        Event::Configured(res) => if p is Starting {
            match res {
                Ok(_) => moves_to(Phase::Sampling, next, a),
                Err(h) => ends_with(ControlError::Hardware(h), next, a),
            }
        } else {
            moves_to(p, next, a)
        },
        Event::SensorRead(res) => if p is Sampling {
            match res {
                Ok(text) => next matches Phase::Commanding { temperature, duty } && temperature@
                    == reading_of(text@) && duty@ == duty_for(temperature@) && is_pending(next, a),
                Err(s) => ends_with(ControlError::Sensor(s), next, a),
            }
        } else {
            moves_to(p, next, a)
        },
        Event::DutySet(res) => match p {
            Phase::Commanding { temperature, duty } => match res {
                Ok(_) => moves_to(Phase::Reporting { temperature, duty }, next, a),
                Err(h) => ends_with(ControlError::Hardware(h), next, a),
            },
            _ => moves_to(p, next, a),
        },
        Event::Reported => if p is Reporting {
            moves_to(Phase::Waiting, next, a)
        } else {
            moves_to(p, next, a)
        },
        Event::Woke => if p is Waiting {
            moves_to(Phase::Sampling, next, a)
        } else {
            moves_to(p, next, a)
        },
    }
}

/// Once ended, the loop stays ended: whatever the event, it remains
/// terminated and asks for nothing more.
pub proof fn lemma_terminated_is_final(e: Event, next: Phase, a: Action)
    requires
        is_step(Phase::Terminated, e, next, a),
    ensures
        next == Phase::Terminated,
        a == Action::Halt,
{
}

/// The fan control loop as a state machine. The caller performs each action
/// it asks for and hands the outcome back through `step`.
pub struct FanController {
    phase: Phase,
}

impl FanController {
    pub closed spec fn view(&self) -> Phase {
        self.phase
    }

    /// A controller whose pin has yet to be configured.
    pub fn new() -> (r: FanController)
        ensures
            r@ == Phase::Starting,
    {
        FanController { phase: Phase::Starting }
    }

    pub fn phase(&self) -> (r: Phase)
        ensures
            r == self@,
    {
        self.phase
    }

    /// Whether the loop still runs: it has not been ended by a failure.
    pub fn is_running(&self) -> (r: bool)
        ensures
            r == !(self@ is Terminated),
    {
        !matches!(self.phase, Phase::Terminated)
    }

    /// The action the current phase waits on.
    pub fn pending(&self) -> (r: Action)
        ensures
            is_pending(self@, r),
    {
        match self.phase {
            Phase::Starting => Action::Configure {
                pin: FAN_PIN,
                frequency_hz: PWM_FREQUENCY_HZ,
                duty: DutyCycle::from_percent(STARTUP_DUTY_PERCENT),
            },
            Phase::Sampling => Action::ReadSensor,
            Phase::Commanding { temperature, duty } => Action::SetDuty {
                frequency_hz: PWM_FREQUENCY_HZ,
                duty,
            },
            Phase::Reporting { temperature, duty } => Action::Report { temperature, duty },
            Phase::Waiting => Action::Sleep { seconds: SAMPLE_INTERVAL_SECS },
            Phase::Terminated => Action::Halt,
        }
    }

    fn move_to(&mut self, q: Phase) -> (r: Action)
        ensures
            moves_to(q, final(self)@, r),
    {
        self.phase = q;
        self.pending()
    }

    fn end_with(&mut self, error: ControlError) -> (r: Action)
        ensures
            ends_with(error, final(self)@, r),
    {
        self.phase = Phase::Terminated;
        Action::Exit { error }
    }

    /// Takes the outcome of the last action and returns the next one.
    pub fn step(&mut self, event: Event) -> (r: Action)
        ensures
            is_step(old(self)@, event, final(self)@, r),
    {
        let p = self.phase;
        match event {
            Event::Configured(res) => if matches!(p, Phase::Starting) {
                match res {
                    Ok(_) => self.move_to(Phase::Sampling),
                    Err(h) => self.end_with(ControlError::Hardware(h)),
                }
            } else {
                self.move_to(p)
            },
            Event::SensorRead(res) => if matches!(p, Phase::Sampling) {
                match res {
                    Ok(text) => {
                        let temperature = parse_temperature(text.as_str());
                        let duty = compute_duty(temperature);
                        self.move_to(Phase::Commanding { temperature, duty })
                    },
                    Err(s) => self.end_with(ControlError::Sensor(s)),
                }
            } else {
                self.move_to(p)
            },
            Event::DutySet(res) => match p {
                Phase::Commanding { temperature, duty } => match res {
                    Ok(_) => self.move_to(Phase::Reporting { temperature, duty }),
                    Err(h) => self.end_with(ControlError::Hardware(h)),
                },
                _ => self.move_to(p),
            },
            Event::Reported => if matches!(p, Phase::Reporting { .. }) {
                self.move_to(Phase::Waiting)
            } else {
                self.move_to(p)
            },
            Event::Woke => if matches!(p, Phase::Waiting) {
                self.move_to(Phase::Sampling)
            } else {
                self.move_to(p)
            },
        }
    }
}

} // verus!
