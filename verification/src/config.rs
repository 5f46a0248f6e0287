//! Machine configuration: per-axis motor data, endstop wiring, and the
//! microinch/step conversions every motion computation rests on.

use vstd::prelude::*;
use vstd::string::StringExecFns;

use crate::common::{Axis, AxisEnd, EndstopIdentifier};
use crate::pins;
use crate::units::{
    round_div, round_div_i128, lemma_round_div_error, lemma_round_div_exact,
    lemma_round_div_ordered, lemma_round_div_sign, MAX_CONVERT_UIN, MAX_POSITION_UIN,
    MAX_REPORTED_UIN, STEP_SCALE,
};

verus! {

/// Immutable description of one axis motor.
///
/// Gearing is stored in integer fixed point: `revs_per_inch_milli` is
/// thousandths of a revolution per inch of travel, and `default_speed_uin_s`
/// is microinches per second.
#[derive(Copy, Clone, Debug, PartialEq, Eq, Structural)]
pub struct MotorConfig {
    pub steps_per_rev: u32,
    pub revs_per_inch_milli: u32,
    pub reversed: bool,
    pub default_speed_uin_s: u32,
    pub enable_pin_number: u64,
    pub step_pin_number: u64,
    pub direction_pin_number: u64,
}

impl MotorConfig {
    /// Milli-steps of the motor per inch of travel.
    pub open spec fn steps_per_inch_milli(self) -> int {
        self.steps_per_rev * self.revs_per_inch_milli
    }

    /// A usable motor configuration: positive gearing with at least one step
    /// per inch and a step width of at least two microinches, and a positive
    /// default speed.
    pub open spec fn wf(self) -> bool {
        &&& 1 <= self.steps_per_rev <= 100_000
        &&& 1 <= self.revs_per_inch_milli <= 100_000
        &&& 1000 <= self.steps_per_inch_milli() <= 500_000_000
        &&& self.default_speed_uin_s > 0
    }

    pub fn steps_per_inch_milli_exec(&self) -> (m: u64)
        requires
            self.wf(),
        ensures
            m == self.steps_per_inch_milli(),
    {
        (self.steps_per_rev as u64) * (self.revs_per_inch_milli as u64)
    }

    /// `steps == round(inches * revs_per_inch * steps_per_rev)`, in fixed point.
    pub open spec fn inches_to_steps_spec(self, inches_uin: int) -> int {
        round_div(inches_uin * self.steps_per_inch_milli(), STEP_SCALE as int)
    }

    pub open spec fn steps_to_inches_spec(self, steps: int) -> int {
        round_div(steps * (STEP_SCALE as int), self.steps_per_inch_milli())
    }

    /// Convert a length in microinches to the nearest whole step count.
    pub fn inches_to_steps(&self, inches_uin: i64) -> (steps: i64)
        requires
            self.wf(),
            -MAX_CONVERT_UIN <= inches_uin <= MAX_CONVERT_UIN,
        ensures
            steps == self.inches_to_steps_spec(inches_uin as int),
            inches_uin >= 0 ==> 0 <= steps <= inches_uin,
            inches_uin < 0 ==> inches_uin <= steps <= 0,
    {
        let m = self.steps_per_inch_milli_exec();
        proof {
            assert(-9_223_372_036_854_775_807 <= (inches_uin as int) * (m as int)
                <= 9_223_372_036_854_775_807) by (nonlinear_arith)
                requires
                    -MAX_CONVERT_UIN <= inches_uin <= MAX_CONVERT_UIN,
                    0 <= m <= 500_000_000,
            ;
        }
        let n: i128 = (inches_uin as i128) * (m as i128);
        let r = round_div_i128(n, STEP_SCALE as i128);
        proof {
            lemma_round_div_sign((inches_uin as int) * (m as int), STEP_SCALE as int);
            lemma_round_div_exact(inches_uin as int, STEP_SCALE as int);
            if inches_uin >= 0 {
                assert(0 <= (inches_uin as int) * (m as int)
                    <= (inches_uin as int) * (STEP_SCALE as int)) by (nonlinear_arith)
                    requires
                        0 <= inches_uin,
                        0 <= m <= STEP_SCALE,
                ;
                lemma_round_div_ordered(
                    (inches_uin as int) * (m as int),
                    (inches_uin as int) * (STEP_SCALE as int),
                    STEP_SCALE as int,
                );
            } else {
                assert((inches_uin as int) * (STEP_SCALE as int)
                    <= (inches_uin as int) * (m as int) <= 0) by (nonlinear_arith)
                    requires
                        inches_uin < 0,
                        0 <= m <= STEP_SCALE,
                ;
                lemma_round_div_ordered(
                    (inches_uin as int) * (STEP_SCALE as int),
                    (inches_uin as int) * (m as int),
                    STEP_SCALE as int,
                );
            }
        }
        r as i64
    }

    /// Convert a whole step count back to a length in microinches.
    pub fn steps_to_inches(&self, steps: i64) -> (inches_uin: i64)
        requires
            self.wf(),
            -MAX_CONVERT_UIN <= steps <= MAX_CONVERT_UIN,
        ensures
            inches_uin == self.steps_to_inches_spec(steps as int),
            steps >= 0 ==> 0 <= inches_uin <= steps * 1_000_000 + 1,
            steps < 0 ==> steps * 1_000_000 - 1 <= inches_uin <= 0,
    {
        let m = self.steps_per_inch_milli_exec();
        proof {
            assert(-9_223_372_036_854_775_807 <= (steps as int) * (STEP_SCALE as int)
                <= 9_223_372_036_854_775_807) by (nonlinear_arith)
                requires
                    -MAX_CONVERT_UIN <= steps <= MAX_CONVERT_UIN,
                    STEP_SCALE == 1_000_000_000,
            ;
        }
        let n: i128 = (steps as i128) * (STEP_SCALE as i128);
        let r = round_div_i128(n, m as i128);
        proof {
            let si = steps as int;
            let mi = m as int;
            let b = STEP_SCALE as int;
            lemma_round_div_sign(si * b, mi);
            lemma_round_div_error(si * b, mi);
            assert(si >= 0 ==> round_div(si * b, mi) <= si * 1_000_000 + 1)
                by (nonlinear_arith)
                requires
                    1000 <= mi <= b,
                    b == 1_000_000_000,
                    -mi < 2 * (round_div(si * b, mi) * mi - si * b) <= mi,
            ;
            assert(si < 0 ==> round_div(si * b, mi) >= si * 1_000_000 - 1)
                by (nonlinear_arith)
                requires
                    1000 <= mi <= b,
                    b == 1_000_000_000,
                    -mi < 2 * (round_div(si * b, mi) * mi - si * b) <= mi,
            ;
            assert(si >= 0 ==> si * b >= 0) by (nonlinear_arith)
                requires
                    b > 0,
            ;
            assert(si < 0 ==> si * b <= 0) by (nonlinear_arith)
                requires
                    b > 0,
            ;
        }
        r as i64
    }

    /// Round-trip error bound: converting a length to steps and back moves it
    /// by at most one step width (`STEP_SCALE / steps_per_inch_milli`
    /// microinches).
    pub proof fn lemma_inches_round_trip(self, inches_uin: int)
        requires
            self.wf(),
        ensures
            ({
                let back = self.steps_to_inches_spec(self.inches_to_steps_spec(inches_uin));
                -STEP_SCALE <= (back - inches_uin) * self.steps_per_inch_milli() <= STEP_SCALE
            }),
    {
        let m = self.steps_per_inch_milli();
        let b = STEP_SCALE as int;
        let s = round_div(inches_uin * m, b);
        let y = round_div(s * b, m);
        lemma_round_div_error(inches_uin * m, b);
        lemma_round_div_error(s * b, m);
        assert(-b <= (y - inches_uin) * m <= b) by (nonlinear_arith)
            requires
                0 < m <= b,
                -b < 2 * (s * b - inches_uin * m) <= b,
                -m < 2 * (y * m - s * b) <= m,
        ;
    }

    /// Converting a step count to a length and back returns the same step
    /// count exactly.
    pub proof fn lemma_steps_round_trip(self, steps: int)
        requires
            self.wf(),
        ensures
            self.inches_to_steps_spec(self.steps_to_inches_spec(steps)) == steps,
    {
        let m = self.steps_per_inch_milli();
        let b = STEP_SCALE as int;
        let y = round_div(steps * b, m);
        let s2 = round_div(y * m, b);
        lemma_round_div_error(steps * b, m);
        lemma_round_div_error(y * m, b);
        assert(s2 == steps) by (nonlinear_arith)
            requires
                0 < m,
                2 * m <= b,
                -m < 2 * (y * m - steps * b) <= m,
                -b < 2 * (s2 * b - y * m) <= b,
        ;
    }

    /// A length's step count is no larger in magnitude than the length
    /// itself, since a step is at least a microinch wide.
    pub proof fn lemma_inches_to_steps_bound(self, inches_uin: int)
        requires
            self.wf(),
        ensures
            inches_uin >= 0 ==> 0 <= self.inches_to_steps_spec(inches_uin) <= inches_uin,
            inches_uin < 0 ==> inches_uin <= self.inches_to_steps_spec(inches_uin) <= 0,
    {
        let m = self.steps_per_inch_milli();
        let b = STEP_SCALE as int;
        lemma_round_div_sign(inches_uin * m, b);
        lemma_round_div_exact(inches_uin, b);
        if inches_uin >= 0 {
            assert(0 <= inches_uin * m <= inches_uin * b) by (nonlinear_arith)
                requires
                    0 <= inches_uin,
                    0 <= m <= b,
            ;
            lemma_round_div_ordered(inches_uin * m, inches_uin * b, b);
        } else {
            assert(inches_uin * b <= inches_uin * m <= 0) by (nonlinear_arith)
                requires
                    inches_uin < 0,
                    0 <= m <= b,
            ;
            lemma_round_div_ordered(inches_uin * b, inches_uin * m, b);
        }
    }

    /// A bounded step count converts to a length representable in 64-bit
    /// microinches.
    pub proof fn lemma_steps_to_inches_bound(self, steps: int)
        requires
            self.wf(),
            -5_000_000_000 <= steps <= 5_000_000_000,
        ensures
            -6_000_000_000_000_000 <= self.steps_to_inches_spec(steps)
                <= 6_000_000_000_000_000,
    {
        let m = self.steps_per_inch_milli();
        let b = STEP_SCALE as int;
        lemma_round_div_error(steps * b, m);
        assert(-6_000_000_000_000_000 <= round_div(steps * b, m) <= 6_000_000_000_000_000)
            by (nonlinear_arith)
            requires
                1000 <= m,
                b == 1_000_000_000,
                -5_000_000_000 <= steps <= 5_000_000_000,
                -m < 2 * (round_div(steps * b, m) * m - steps * b) <= m,
        ;
    }

    /// A length that the step quantization maps to itself.  Every position
    /// the motor loop reports is of this form, since it is converted from a
    /// whole step count.
    pub open spec fn step_aligned(self, pos_uin: int) -> bool {
        pos_uin == self.steps_to_inches_spec(self.inches_to_steps_spec(pos_uin))
    }

    /// Step-to-length conversion is monotonic.
    pub proof fn lemma_steps_to_inches_ordered(self, a: int, c: int)
        requires
            self.wf(),
            a <= c,
        ensures
            self.steps_to_inches_spec(a) <= self.steps_to_inches_spec(c),
    {
        let b = STEP_SCALE as int;
        assert(a * b <= c * b) by (nonlinear_arith)
            requires
                a <= c,
                b >= 0,
        ;
        lemma_round_div_ordered(a * b, c * b, self.steps_per_inch_milli());
    }

    /// Length-to-step conversion is monotonic.
    pub proof fn lemma_inches_to_steps_ordered(self, a: int, c: int)
        requires
            self.wf(),
            a <= c,
        ensures
            self.inches_to_steps_spec(a) <= self.inches_to_steps_spec(c),
    {
        let m = self.steps_per_inch_milli();
        assert(a * m <= c * m) by (nonlinear_arith)
            requires
                a <= c,
                m >= 0,
        ;
        lemma_round_div_ordered(a * m, c * m, STEP_SCALE as int);
    }

    /// A step count within the commanded-position clamp converts back to a
    /// length within the reporting limit.
    pub proof fn lemma_position_report_bound(self, steps: int)
        requires
            self.wf(),
            -self.inches_to_steps_spec(MAX_POSITION_UIN as int) <= steps
                <= self.inches_to_steps_spec(MAX_POSITION_UIN as int),
        ensures
            -MAX_REPORTED_UIN <= self.steps_to_inches_spec(steps) <= MAX_REPORTED_UIN,
    {
        let m = self.steps_per_inch_milli();
        let b = STEP_SCALE as int;
        let p = MAX_POSITION_UIN as int;
        let cap = round_div(p * m, b);
        let r = round_div(steps * b, m);
        lemma_round_div_error(p * m, b);
        lemma_round_div_error(steps * b, m);
        assert(steps * b <= cap * b && -(cap * b) <= steps * b) by (nonlinear_arith)
            requires
                -cap <= steps <= cap,
                b > 0,
        ;
        assert(-MAX_REPORTED_UIN <= r <= MAX_REPORTED_UIN) by (nonlinear_arith)
            requires
                1000 <= m,
                2 * m <= b,
                b == 1_000_000_000,
                p == 512_000_000,
                MAX_REPORTED_UIN == 514_000_000,
                -b < 2 * (cap * b - p * m) <= b,
                -m < 2 * (r * m - steps * b) <= m,
                steps * b <= cap * b,
                -(cap * b) <= steps * b,
        ;
    }

    /// Level to drive the direction pin for a commanded direction of travel,
    /// honouring the `reversed` flag.
    pub fn direction_pin_level(&self, direction: AxisEnd) -> (level: bool)
        ensures
            level == ((direction is Max) != self.reversed),
    {
        match direction {
            AxisEnd::Max => !self.reversed,
            AxisEnd::Min => self.reversed,
        }
    }

    /// Step rate for a speed in microinches per second, as milli-steps per
    /// millisecond (numerically equal to steps per second).
    pub fn steps_per_millisecond_milli(&self, speed_uin_s: u32) -> (rate: u64)
        requires
            self.wf(),
        ensures
            rate == round_div(speed_uin_s * self.steps_per_inch_milli(), STEP_SCALE as int),
            rate <= speed_uin_s,
    {
        let m = self.steps_per_inch_milli_exec();
        proof {
            let v = speed_uin_s as int;
            let mi = m as int;
            let b = STEP_SCALE as int;
            assert(0 <= v * mi <= 9_223_372_036_854_775_807 && v * mi <= v * b)
                by (nonlinear_arith)
                requires
                    0 <= v < 4_294_967_296,
                    0 <= mi <= 500_000_000,
                    b == 1_000_000_000,
            ;
            lemma_round_div_sign(v * mi, b);
            lemma_round_div_ordered(v * mi, v * b, b);
            lemma_round_div_exact(v, b);
        }
        let n: i128 = (speed_uin_s as i128) * (m as i128);
        let r = round_div_i128(n, STEP_SCALE as i128);
        r as u64
    }
}

/// The motor configuration of every axis; all three axes are always present.
#[derive(Copy, Clone, Debug, PartialEq, Eq, Structural)]
pub struct MotorConfigs {
    pub x: MotorConfig,
    pub y: MotorConfig,
    pub z: MotorConfig,
}

impl MotorConfigs {
    pub open spec fn axis_config(self, axis: Axis) -> MotorConfig {
        match axis {
            Axis::X => self.x,
            Axis::Y => self.y,
            Axis::Z => self.z,
        }
    }

    pub open spec fn wf(self) -> bool {
        self.x.wf() && self.y.wf() && self.z.wf()
    }

    pub fn get(&self, axis: Axis) -> (c: MotorConfig)
        ensures
            c == self.axis_config(axis),
    {
        match axis {
            Axis::X => self.x,
            Axis::Y => self.y,
            Axis::Z => self.z,
        }
    }
}

/// GPIO line of every endstop.  Z has no Min switch on this machine.
#[derive(Copy, Clone, Debug, PartialEq, Eq, Structural)]
pub struct EndstopConfig {
    pub x_min_pin: u32,
    pub x_max_pin: u32,
    pub y_min_pin: u32,
    pub y_max_pin: u32,
    pub z_max_pin: u32,
}

impl EndstopConfig {
    /// The GPIO line of an endstop, or `None` for the absent (Z, Min) switch.
    pub open spec fn pin_spec(self, id: EndstopIdentifier) -> Option<u32> {
        match (id.axis, id.position) {
            (Axis::X, AxisEnd::Min) => Some(self.x_min_pin),
            (Axis::X, AxisEnd::Max) => Some(self.x_max_pin),
            (Axis::Y, AxisEnd::Min) => Some(self.y_min_pin),
            (Axis::Y, AxisEnd::Max) => Some(self.y_max_pin),
            (Axis::Z, AxisEnd::Min) => None,
            (Axis::Z, AxisEnd::Max) => Some(self.z_max_pin),
        }
    }

    pub fn pin_for(&self, id: EndstopIdentifier) -> (pin: Option<u32>)
        ensures
            pin == self.pin_spec(id),
    {
        match (id.axis, id.position) {
            (Axis::X, AxisEnd::Min) => Some(self.x_min_pin),
            (Axis::X, AxisEnd::Max) => Some(self.x_max_pin),
            (Axis::Y, AxisEnd::Min) => Some(self.y_min_pin),
            (Axis::Y, AxisEnd::Max) => Some(self.y_max_pin),
            (Axis::Z, AxisEnd::Min) => None,
            (Axis::Z, AxisEnd::Max) => Some(self.z_max_pin),
        }
    }

    /// The endstop watched on a GPIO line, checked in a fixed order.
    pub open spec fn endstop_for_line_spec(self, line: u32) -> Option<EndstopIdentifier> {
        if line == self.x_min_pin {
            Some(EndstopIdentifier { axis: Axis::X, position: AxisEnd::Min })
        } else if line == self.x_max_pin {
            Some(EndstopIdentifier { axis: Axis::X, position: AxisEnd::Max })
        } else if line == self.y_min_pin {
            Some(EndstopIdentifier { axis: Axis::Y, position: AxisEnd::Min })
        } else if line == self.y_max_pin {
            Some(EndstopIdentifier { axis: Axis::Y, position: AxisEnd::Max })
        } else if line == self.z_max_pin {
            Some(EndstopIdentifier { axis: Axis::Z, position: AxisEnd::Max })
        } else {
            None
        }
    }

    pub fn endstop_for_line(&self, line: u32) -> (id: Option<EndstopIdentifier>)
        ensures
            id == self.endstop_for_line_spec(line),
    {
        if line == self.x_min_pin {
            Some(EndstopIdentifier::new(Axis::X, AxisEnd::Min))
        } else if line == self.x_max_pin {
            Some(EndstopIdentifier::new(Axis::X, AxisEnd::Max))
        } else if line == self.y_min_pin {
            Some(EndstopIdentifier::new(Axis::Y, AxisEnd::Min))
        } else if line == self.y_max_pin {
            Some(EndstopIdentifier::new(Axis::Y, AxisEnd::Max))
        } else if line == self.z_max_pin {
            Some(EndstopIdentifier::new(Axis::Z, AxisEnd::Max))
        } else {
            None
        }
    }
}

/// Whole-machine configuration: per-axis motors, endstop wiring, the GPIO
/// chip to open, and the spindle enable line.
#[derive(Clone, Debug)]
pub struct RustGrindConfig {
    pub motor_configs: MotorConfigs,
    pub endstop_config: EndstopConfig,
    pub gpio_chip_name: String,
    pub spindle_enable_pin: u32,
}

impl RustGrindConfig {
    pub open spec fn wf(self) -> bool {
        self.motor_configs.wf()
    }

    /// The compiled-in default configuration: 200 steps per revolution, one
    /// revolution per inch, one inch per second, default pin numbering.
    pub fn default_config() -> (c: Self)
        ensures
            c.wf(),
            forall|axis: Axis| (#[trigger] c.motor_configs.axis_config(axis)).steps_per_rev
                == 200,
            forall|axis: Axis| c.motor_configs.axis_config(axis).revs_per_inch_milli == 1000,
            forall|axis: Axis| !c.motor_configs.axis_config(axis).reversed,
            forall|axis: Axis| c.motor_configs.axis_config(axis).default_speed_uin_s
                == 1_000_000,
            c.motor_configs.x.enable_pin_number == pins::X_ENABLE_PIN_NUMBER,
            c.motor_configs.x.step_pin_number == pins::X_STEP_PIN_NUMBER,
            c.motor_configs.x.direction_pin_number == pins::X_DIRECTION_PIN_NUMBER,
            c.motor_configs.y.enable_pin_number == pins::Y_ENABLE_PIN_NUMBER,
            c.motor_configs.y.step_pin_number == pins::Y_STEP_PIN_NUMBER,
            c.motor_configs.y.direction_pin_number == pins::Y_DIRECTION_PIN_NUMBER,
            c.motor_configs.z.enable_pin_number == pins::Z_ENABLE_PIN_NUMBER,
            c.motor_configs.z.step_pin_number == pins::Z_STEP_PIN_NUMBER,
            c.motor_configs.z.direction_pin_number == pins::Z_DIRECTION_PIN_NUMBER,
            c.endstop_config == (EndstopConfig {
                x_min_pin: pins::X_MIN_ENDSTOP_PIN_NUMBER,
                x_max_pin: pins::X_MAX_ENDSTOP_PIN_NUMBER,
                y_min_pin: pins::Y_MIN_ENDSTOP_PIN_NUMBER,
                y_max_pin: pins::Y_MAX_ENDSTOP_PIN_NUMBER,
                z_max_pin: pins::Z_MAX_ENDSTOP_PIN_NUMBER,
            }),
            c.spindle_enable_pin == pins::SPINDLE_PIN_NUMBER,
            c.gpio_chip_name@ == "/dev/gpiochip0"@,
    {
        RustGrindConfig {
            motor_configs: MotorConfigs {
                x: MotorConfig {
                    steps_per_rev: 200,
                    revs_per_inch_milli: 1000,
                    reversed: false,
                    default_speed_uin_s: 1_000_000,
                    enable_pin_number: pins::X_ENABLE_PIN_NUMBER,
                    step_pin_number: pins::X_STEP_PIN_NUMBER,
                    direction_pin_number: pins::X_DIRECTION_PIN_NUMBER,
                },
                y: MotorConfig {
                    steps_per_rev: 200,
                    revs_per_inch_milli: 1000,
                    reversed: false,
                    default_speed_uin_s: 1_000_000,
                    enable_pin_number: pins::Y_ENABLE_PIN_NUMBER,
                    step_pin_number: pins::Y_STEP_PIN_NUMBER,
                    direction_pin_number: pins::Y_DIRECTION_PIN_NUMBER,
                },
                z: MotorConfig {
                    steps_per_rev: 200,
                    revs_per_inch_milli: 1000,
                    reversed: false,
                    default_speed_uin_s: 1_000_000,
                    enable_pin_number: pins::Z_ENABLE_PIN_NUMBER,
                    step_pin_number: pins::Z_STEP_PIN_NUMBER,
                    direction_pin_number: pins::Z_DIRECTION_PIN_NUMBER,
                },
            },
            endstop_config: EndstopConfig {
                x_min_pin: pins::X_MIN_ENDSTOP_PIN_NUMBER,
                x_max_pin: pins::X_MAX_ENDSTOP_PIN_NUMBER,
                y_min_pin: pins::Y_MIN_ENDSTOP_PIN_NUMBER,
                y_max_pin: pins::Y_MAX_ENDSTOP_PIN_NUMBER,
                z_max_pin: pins::Z_MAX_ENDSTOP_PIN_NUMBER,
            },
            gpio_chip_name: new_gpio_chip_name(),
            spindle_enable_pin: pins::SPINDLE_PIN_NUMBER,
        }
    }
}

/// The default GPIO character device path.
pub fn new_gpio_chip_name() -> (name: String)
    ensures
        name@ == "/dev/gpiochip0"@,
{
    String::from_str("/dev/gpiochip0")
}

/// Read-only snapshot of the configuration held by one component.
#[derive(Clone, Debug)]
pub struct ConfigClient {
    pub config: RustGrindConfig,
}

impl ConfigClient {
    pub fn new(config: RustGrindConfig) -> (c: Self)
        ensures
            c.config == config,
    {
        ConfigClient { config }
    }
}

} // verus!
