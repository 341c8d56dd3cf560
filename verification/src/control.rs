//! Device controls: what a control is, what values it admits, and the values
//! a caller may submit for it.

use vstd::prelude::*;

verus! {

/// Which adjustable parameter of a device a control is.
#[derive(Clone, Copy, Debug, PartialEq, Eq, Hash, Structural)]
pub enum KnownCameraControl {
    Brightness,
    Contrast,
    Hue,
    Saturation,
    Sharpness,
    Gamma,
    WhiteBalance,
    BacklightComp,
    Gain,
    Pan,
    Tilt,
    Zoom,
    Exposure,
    Iris,
    Focus,
    /// A control the device names by number.
    Other(u128),
}

/// What a device reports of a control besides its values.
#[derive(Clone, Copy, Debug, PartialEq, Eq, Hash, Structural)]
pub struct ControlFlags {
    pub active: bool,
    pub read_only: bool,
}

/// A value submitted for a control.
#[derive(Clone, Debug, PartialEq, Eq)]
pub enum ControlValueSetter {
    Integer(i64),
    Boolean(bool),
    EnumValue(i64),
    Bytes(Vec<u8>),
}

impl ControlValueSetter {
    /// The number a value stands for, if it stands for one: an integer or an
    /// enumerated value as it is, a boolean as 0 or 1. A blob has none.
    pub open spec fn number(self) -> Option<int> {
        match self {
            ControlValueSetter::Integer(v) => Some(v as int),
            ControlValueSetter::Boolean(b) => Some(
                if b {
                    1int
                } else {
                    0int
                },
            ),
            ControlValueSetter::EnumValue(v) => Some(v as int),
            ControlValueSetter::Bytes(_) => None,
        }
    }

    pub fn as_number(&self) -> (n: Option<i64>)
        ensures
            match n {
                Some(v) => self.number() == Some(v as int),
                None => self.number() is None,
            },
    {
        match self {
            ControlValueSetter::Integer(v) => Some(*v),
            ControlValueSetter::Boolean(b) => Some(
                if *b {
                    1
                } else {
                    0
                },
            ),
            ControlValueSetter::EnumValue(v) => Some(*v),
            ControlValueSetter::Bytes(_) => None,
        }
    }
}

/// A control as the device describes it: its current value, the range the
/// value may lie in, the step between admissible values, and the default.
///
/// A step above zero means the device enforces stepping: admissible values
/// are `min`, `min + step`, `min + 2 * step` and so on. Any other step means
/// it does not.
#[derive(Clone, Copy, Debug, PartialEq, Eq, Hash, Structural)]
pub struct CameraControl {
    pub id: KnownCameraControl,
    pub current: i64,
    pub min: i64,
    pub max: i64,
    pub step: i64,
    pub default: i64,
    pub flags: ControlFlags,
}

impl CameraControl {
    /// Whether the number `v` lies within the bounds and on the step grid.
    pub open spec fn admits(self, v: int) -> bool {
        &&& self.min <= v <= self.max
        &&& self.step > 0 ==> (v - self.min) % (self.step as int) == 0
    }

    /// Whether a submitted value may be forwarded to the device. A value that
    /// stands for a number must be admitted; the bounds say nothing of a blob.
    pub open spec fn accepts(self, value: ControlValueSetter) -> bool {
        match value.number() {
            Some(v) => self.admits(v),
            None => true,
        }
    }

    /// The invariant of a control: its current value is one it admits.
    pub open spec fn well_formed(self) -> bool {
        self.admits(self.current as int)
    }

    /// This control with `value` as its current value, where the value stands
    /// for a number that fits; otherwise the control itself.
    pub open spec fn updated(self, value: ControlValueSetter) -> CameraControl {
        match value.number() {
            Some(v) if i64::MIN <= v <= i64::MAX => CameraControl { current: v as i64, ..self },
            _ => self,
        }
    }

    /// A control from its parts, or `None` where the current value is not one
    /// the range and step admit.
    pub fn new(
        id: KnownCameraControl,
        current: i64,
        min: i64,
        max: i64,
        step: i64,
        default: i64,
        flags: ControlFlags,
    ) -> (made: Option<CameraControl>)
        ensures
            ({
                let control = CameraControl { id, current, min, max, step, default, flags };
                made == if control.well_formed() {
                    Some(control)
                } else {
                    None
                }
            }),
    {
        let control = CameraControl { id, current, min, max, step, default, flags };
        if control.is_well_formed() {
            Some(control)
        } else {
            None
        }
    }

    pub fn id(&self) -> (id: KnownCameraControl)
        ensures
            id == self.id,
    {
        self.id
    }

    pub fn current(&self) -> (v: i64)
        ensures
            v == self.current,
    {
        self.current
    }

    pub fn minimum(&self) -> (v: i64)
        ensures
            v == self.min,
    {
        self.min
    }

    pub fn maximum(&self) -> (v: i64)
        ensures
            v == self.max,
    {
        self.max
    }

    pub fn step(&self) -> (v: i64)
        ensures
            v == self.step,
    {
        self.step
    }

    pub fn default_value(&self) -> (v: i64)
        ensures
            v == self.default,
    {
        self.default
    }

    pub fn flags(&self) -> (flags: ControlFlags)
        ensures
            flags == self.flags,
    {
        self.flags
    }

    /// The current value in the form in which it can be submitted again.
    pub fn value(&self) -> (value: ControlValueSetter)
        ensures
            value == ControlValueSetter::Integer(self.current),
    {
        ControlValueSetter::Integer(self.current)
    }

    pub fn admits_value(&self, v: i64) -> (ok: bool)
        ensures
            ok == self.admits(v as int),
    {
        if v < self.min || v > self.max {
            return false;
        }
        if self.step <= 0 {
            return true;
        }
        let distance: i128 = v as i128 - self.min as i128;
        distance % (self.step as i128) == 0
    }

    pub fn is_well_formed(&self) -> (ok: bool)
        ensures
            ok == self.well_formed(),
    {
        self.admits_value(self.current)
    }

    pub fn accepts_value(&self, value: &ControlValueSetter) -> (ok: bool)
        ensures
            ok == self.accepts(*value),
    {
        match value.as_number() {
            Some(v) => self.admits_value(v),
            None => true,
        }
    }

    /// This control after `value` was set on the device.
    pub fn with_value(&self, value: &ControlValueSetter) -> (control: CameraControl)
        ensures
            control == self.updated(*value),
            self.accepts(*value) && self.well_formed() ==> control.well_formed(),
    {
        match value.as_number() {
            Some(v) => CameraControl {
                id: self.id,
                current: v,
                min: self.min,
                max: self.max,
                step: self.step,
                default: self.default,
                flags: self.flags,
            },
            None => *self,
        }
    }
}

} // verus!
