//! Control descriptors: the per-session snapshot of what a device lets an
//! operator adjust, and the arithmetic that keeps integer values on a
//! control's declared grid.

use vstd::prelude::*;

verus! {

/// The widget class of a control. Everything a consumer cannot render is
/// `Unsupported`; such controls stay in a catalog so that counts are accurate.
#[derive(Clone, Copy, Debug, PartialEq, Eq, Structural)]
pub enum ControlKind {
    Integer,
    Boolean,
    Menu,
    Unsupported,
}

impl ControlKind {
    /// Position of a kind in a catalog: integers first, unsupported last.
    pub open spec fn rank(self) -> int {
        match self {
            ControlKind::Integer => 0,
            ControlKind::Boolean => 1,
            ControlKind::Menu => 2,
            ControlKind::Unsupported => 3,
        }
    }

    /// The kind that a driver's numeric control type stands for.
    pub open spec fn of_type_code(code: u32) -> ControlKind {
        if code == 1 {
            ControlKind::Integer
        } else if code == 2 {
            ControlKind::Boolean
        } else if code == 3 {
            ControlKind::Menu
        } else {
            ControlKind::Unsupported
        }
    }

    /// Classifies a driver's numeric control type.
    pub fn from_type_code(code: u32) -> (kind: ControlKind)
        ensures
            kind == ControlKind::of_type_code(code),
    {
        if code == 1 {
            ControlKind::Integer
        } else if code == 2 {
            ControlKind::Boolean
        } else if code == 3 {
            ControlKind::Menu
        } else {
            ControlKind::Unsupported
        }
    }

    /// Whether the current value of a control of this kind is read from the
    /// hardware. Menu selections cannot be read back and live in the shadow
    /// table instead.
    pub open spec fn hardware_backed(self) -> bool {
        self == ControlKind::Integer || self == ControlKind::Boolean
    }

    /// Executable form of [`ControlKind::hardware_backed`].
    pub fn is_hardware_backed(self) -> (b: bool)
        ensures
            b == self.hardware_backed(),
    {
        match self {
            ControlKind::Integer => true,
            ControlKind::Boolean => true,
            ControlKind::Menu => false,
            ControlKind::Unsupported => false,
        }
    }
}

/// One choice of a menu control: the raw value written to the hardware and
/// the label shown to the operator.
#[derive(Debug, PartialEq, Eq)]
pub struct MenuEntry {
    pub value: i64,
    pub label: String,
}

/// Mathematical model of a [`MenuEntry`].
pub struct MenuEntryView {
    pub value: int,
    pub label: Seq<char>,
}

impl View for MenuEntry {
    type V = MenuEntryView;

    open spec fn view(&self) -> MenuEntryView {
        MenuEntryView { value: self.value as int, label: self.label@ }
    }
}

/// Snapshot of one hardware control, taken when a device is opened and never
/// changed afterwards.
#[derive(Debug, PartialEq, Eq)]
pub struct ControlDescriptor {
    pub id: u32,
    pub name: String,
    pub kind: ControlKind,
    pub minimum: i64,
    pub maximum: i64,
    pub step: u64,
    pub default: i64,
    /// The choices of a menu control, in the order the device lists them.
    /// Empty for every other kind.
    pub items: Vec<MenuEntry>,
}

/// Mathematical model of a [`ControlDescriptor`].
pub struct DescriptorView {
    pub id: u32,
    pub name: Seq<char>,
    pub kind: ControlKind,
    pub minimum: int,
    pub maximum: int,
    pub step: nat,
    pub default: int,
    pub items: Seq<MenuEntryView>,
}

impl View for ControlDescriptor {
    type V = DescriptorView;

    open spec fn view(&self) -> DescriptorView {
        DescriptorView {
            id: self.id,
            name: self.name@,
            kind: self.kind,
            minimum: self.minimum as int,
            maximum: self.maximum as int,
            step: self.step as nat,
            default: self.default as int,
            items: Seq::new(self.items@.len(), |i: int| self.items@[i]@),
        }
    }
}

/// The distance between two neighbouring values of an integer control. A
/// declared step of zero means that every integer in the range can be set.
pub open spec fn grid_step(step: nat) -> int {
    if step == 0 {
        1
    } else {
        step as int
    }
}

/// `v` moved into `[minimum, maximum]`.
pub open spec fn clamped(minimum: int, maximum: int, v: int) -> int {
    if v < minimum {
        minimum
    } else if v > maximum {
        maximum
    } else {
        v
    }
}

/// Whether `v` lies in `[minimum, maximum]` and is a whole number of steps
/// away from `minimum`.
pub open spec fn on_grid(minimum: int, maximum: int, step: nat, v: int) -> bool {
    &&& minimum <= v <= maximum
    &&& (v - minimum) % grid_step(step) == 0
}

/// The grid value that stands for `v`: `v` is clamped to the range and then
/// moved to the nearest value that is a whole number of steps above
/// `minimum`. Halfway cases go up. Where the nearest such value would lie
/// above `maximum`, the one below is taken. An empty range has no grid: the
/// result is then `minimum`.
pub open spec fn snapped(minimum: int, maximum: int, step: nat, v: int) -> int {
    let s = grid_step(step);
    let c = clamped(minimum, maximum, v);
    let below = c - (c - minimum) % s;
    let above = below + s;
    if maximum < minimum {
        minimum
    } else if 2 * (c - below) >= s && above <= maximum {
        above
    } else {
        below
    }
}

/// The raw value of the first entry that carries `label`.
pub open spec fn value_of_label(items: Seq<MenuEntryView>, label: Seq<char>) -> Option<int>
    decreases items.len(),
{
    if items.len() == 0 {
        None
    } else if items[0].label == label {
        Some(items[0].value)
    } else {
        value_of_label(items.drop_first(), label)
    }
}

/// The label of the first entry whose raw value is `value`.
pub open spec fn label_of_value(items: Seq<MenuEntryView>, value: int) -> Option<Seq<char>>
    decreases items.len(),
{
    if items.len() == 0 {
        None
    } else if items[0].value == value {
        Some(items[0].label)
    } else {
        label_of_value(items.drop_first(), value)
    }
}

impl DescriptorView {
    /// A descriptor that consumers can present: an integer control has a
    /// range that is not empty, a menu control has at least one choice.
    pub open spec fn presentable(self) -> bool {
        &&& self.kind == ControlKind::Integer ==> self.minimum <= self.maximum
        &&& self.kind == ControlKind::Menu ==> self.items.len() > 0
        &&& self.kind != ControlKind::Unsupported
    }

    /// The grid value that stands for `v` on this control.
    pub open spec fn snap(self, v: int) -> int {
        snapped(self.minimum, self.maximum, self.step, v)
    }
}

impl ControlDescriptor {
    /// Executable form of [`DescriptorView::presentable`].
    pub fn is_presentable(&self) -> (b: bool)
        ensures
            b == self@.presentable(),
    {
        match self.kind {
            ControlKind::Integer => self.minimum <= self.maximum,
            ControlKind::Boolean => true,
            ControlKind::Menu => self.items.len() > 0,
            ControlKind::Unsupported => false,
        }
    }

    /// The value to show or write for `v`: clamped to the declared range and
    /// quantised to the control's step, counted from the minimum.
    pub fn snap(&self, v: i64) -> (r: i64)
        ensures
            r == self@.snap(v as int),
            self.minimum <= self.maximum ==> on_grid(
                self@.minimum,
                self@.maximum,
                self@.step,
                r as int,
            ),
    {
        if self.maximum < self.minimum {
            return self.minimum;
        }
        let c: i64 = if v < self.minimum {
            self.minimum
        } else if v > self.maximum {
            self.maximum
        } else {
            v
        };
        let s: u128 = if self.step == 0 {
            1
        } else {
            self.step as u128
        };
        let offset: u128 = (c as i128 - self.minimum as i128) as u128;
        let rest: u128 = offset % s;
        let below: i128 = c as i128 - rest as i128;
        let above: i128 = below + s as i128;
        proof {
            lemma_snapped_on_grid(self@.minimum, self@.maximum, self@.step, v as int);
        }
        if 2 * rest >= s && above <= self.maximum as i128 {
            above as i64
        } else {
            below as i64
        }
    }

    /// Resolves a label chosen by the operator to the raw value of the first
    /// menu entry that carries exactly that label.
    pub fn value_of_label(&self, label: &String) -> (r: Option<i64>)
        ensures
            r matches Some(v) ==> value_of_label(self@.items, label@) == Some(v as int),
            r is None ==> value_of_label(self@.items, label@) is None,
    {
        let mut i: usize = 0;
        assert(self@.items.skip(0) == self@.items);
        while i < self.items.len()
            invariant
                i <= self.items@.len(),
                value_of_label(self@.items, label@) == value_of_label(
                    self@.items.skip(i as int),
                    label@,
                ),
            decreases self.items@.len() - i,
        {
            let ghost rest = self@.items.skip(i as int);
            assert(rest[0] == self.items@[i as int]@);
            assert(rest.drop_first() == self@.items.skip(i + 1));
            if self.items[i].label == *label {
                return Some(self.items[i].value);
            }
            i += 1;
        }
        None
    }

    /// The label of the first menu entry whose raw value is `value`.
    pub fn label_of_value(&self, value: i64) -> (r: Option<String>)
        ensures
            r matches Some(l) ==> label_of_value(self@.items, value as int) == Some(l@),
            r is None ==> label_of_value(self@.items, value as int) is None,
    {
        let mut i: usize = 0;
        assert(self@.items.skip(0) == self@.items);
        while i < self.items.len()
            invariant
                i <= self.items@.len(),
                label_of_value(self@.items, value as int) == label_of_value(
                    self@.items.skip(i as int),
                    value as int,
                ),
            decreases self.items@.len() - i,
        {
            let ghost rest = self@.items.skip(i as int);
            assert(rest[0] == self.items@[i as int]@);
            assert(rest.drop_first() == self@.items.skip(i + 1));
            if self.items[i].value == value {
                return Some(self.items[i].label.clone());
            }
            i += 1;
        }
        None
    }
}

/// Every snapped value lies in the range and on the grid, whatever was asked
/// for, as long as the range is not empty.
pub proof fn lemma_snapped_on_grid(minimum: int, maximum: int, step: nat, v: int)
    requires
        minimum <= maximum,
    ensures
        on_grid(minimum, maximum, step, snapped(minimum, maximum, step, v)),
{
    let s = grid_step(step);
    let c = clamped(minimum, maximum, v);
    let rest = (c - minimum) % s;
    let below = c - rest;
    assert(0 <= rest < s);
    vstd::arithmetic::div_mod::lemma_fundamental_div_mod(c - minimum, s);
    let q = (c - minimum) / s;
    assert(below - minimum == s * q);
    vstd::arithmetic::div_mod::lemma_mod_multiples_basic(q, s);
    assert((s * q) % s == 0) by {
        vstd::arithmetic::mul::lemma_mul_is_commutative(s, q);
    }
    assert((below + s - minimum) % s == 0) by {
        vstd::arithmetic::mul::lemma_mul_is_distributive_add(s, q, 1);
        vstd::arithmetic::div_mod::lemma_mod_multiples_basic(q + 1, s);
        vstd::arithmetic::mul::lemma_mul_is_commutative(s, q + 1);
    }
}

/// A value that is already on the grid is left where it is.
pub proof fn lemma_snapped_keeps_grid_values(minimum: int, maximum: int, step: nat, v: int)
    requires
        on_grid(minimum, maximum, step, v),
    ensures
        snapped(minimum, maximum, step, v) == v,
{
}

/// The distance between two integers.
pub open spec fn distance(a: int, b: int) -> int {
    if a <= b {
        b - a
    } else {
        a - b
    }
}

/// No value on the grid lies nearer to the clamped value than the snapped
/// one does.
pub proof fn lemma_snapped_is_nearest(minimum: int, maximum: int, step: nat, v: int, other: int)
    requires
        on_grid(minimum, maximum, step, other),
    ensures
        distance(snapped(minimum, maximum, step, v), clamped(minimum, maximum, v)) <= distance(
            other,
            clamped(minimum, maximum, v),
        ),
{
    let s = grid_step(step);
    let c = clamped(minimum, maximum, v);
    let rest = (c - minimum) % s;
    let below = c - rest;
    vstd::arithmetic::div_mod::lemma_fundamental_div_mod(c - minimum, s);
    vstd::arithmetic::div_mod::lemma_fundamental_div_mod(other - minimum, s);
    let steps = (other - minimum) / s - (c - minimum) / s;
    assert(other - below == s * steps) by {
        vstd::arithmetic::mul::lemma_mul_is_distributive_sub(
            s,
            (other - minimum) / s,
            (c - minimum) / s,
        );
    }
    if other <= c {
        assert(steps <= 0) by (nonlinear_arith)
            requires
                s * steps < s,
                s > 0,
        ;
        assert(s * steps <= 0) by (nonlinear_arith)
            requires
                steps <= 0,
                s > 0,
        ;
    } else {
        assert(steps >= 1) by (nonlinear_arith)
            requires
                s * steps > 0,
                s > 0,
        ;
        assert(s * steps >= s) by (nonlinear_arith)
            requires
                steps >= 1,
                s > 0,
        ;
    }
}

} // verus!
