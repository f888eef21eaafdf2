//! The per-tick reconciliation of every control: read, present, and, where
//! the operator changed something, write.
//!
//! Integer and boolean controls are read from the hardware each tick. A menu
//! control is never read: what it shows comes from the shadow table, which is
//! written when the operator chooses and never checked against the device.

use crate::control::label_of_value;
use crate::control::on_grid;
use crate::control::value_of_label;
use crate::control::ControlDescriptor;
use crate::control::ControlKind;
use crate::control::DescriptorView;
use crate::shadow::ShadowTable;
use vstd::prelude::*;

verus! {

/// A value as the hardware takes and gives it.
#[derive(Clone, Copy, Debug, PartialEq, Eq, Structural)]
pub enum ControlValue {
    Integer(i64),
    Boolean(bool),
}

/// A write to issue to the device.
#[derive(Clone, Copy, Debug, PartialEq, Eq, Structural)]
pub struct ControlWrite {
    pub id: u32,
    pub value: ControlValue,
}

/// Why a control is left out of a tick's presentation.
#[derive(Clone, Copy, Debug, PartialEq, Eq, Structural)]
pub enum SkipReason {
    /// The hardware read failed; what was shown before stays.
    ReadFailed,
    /// The hardware answered with a value of another kind.
    ValueMismatch,
    /// An integer control whose maximum lies below its minimum.
    EmptyRange,
    /// A menu control without any choice.
    NoChoices,
    /// A control of a kind that cannot be rendered.
    Unsupported,
}

/// The state of a control as one tick knows it, tagged with where it comes
/// from.
#[derive(Debug, PartialEq, Eq)]
pub enum Reading {
    /// Read from the hardware in this tick.
    HardwareBacked(ControlValue),
    /// Taken from the shadow table: the label chosen last, or `None` where
    /// nothing was chosen. The hardware is never asked.
    ShadowBacked(Option<String>),
}

/// Mathematical model of a [`Reading`].
pub enum ReadingView {
    HardwareBacked(ControlValue),
    ShadowBacked(Option<Seq<char>>),
}

impl View for Reading {
    type V = ReadingView;

    open spec fn view(&self) -> ReadingView {
        match *self {
            Reading::HardwareBacked(v) => ReadingView::HardwareBacked(v),
            Reading::ShadowBacked(label) => ReadingView::ShadowBacked(
                match label {
                    Some(l) => Some(l@),
                    None => None,
                },
            ),
        }
    }
}

/// The model of an optional reading.
pub open spec fn reading_view(reading: Option<Reading>) -> Option<ReadingView> {
    match reading {
        Some(r) => Some(r@),
        None => None,
    }
}

#[derive(Debug, PartialEq, Eq)]
pub enum Presented {
    /// A bounded range stepped by `step`, with the current value on it.
    Slider { value: i64, minimum: i64, maximum: i64, step: u64 },
    /// A two-state flag.
    Checkbox { checked: bool },
    /// One of the descriptor's labels, or `None` where nothing was selected
    /// yet.
    Dropdown { selected: Option<String> },
    /// Nothing new for this control in this tick.
    Skipped(SkipReason),
}

/// Mathematical model of [`Presented`].
pub enum PresentedView {
    Slider { value: int, minimum: int, maximum: int, step: nat },
    Checkbox { checked: bool },
    Dropdown { selected: Option<Seq<char>> },
    Skipped(SkipReason),
}

impl View for Presented {
    type V = PresentedView;

    open spec fn view(&self) -> PresentedView {
        match *self {
            Presented::Slider { value, minimum, maximum, step } => PresentedView::Slider {
                value: value as int,
                minimum: minimum as int,
                maximum: maximum as int,
                step: step as nat,
            },
            Presented::Checkbox { checked } => PresentedView::Checkbox { checked },
            Presented::Dropdown { selected } => PresentedView::Dropdown {
                selected: match selected {
                    Some(l) => Some(l@),
                    None => None,
                },
            },
            Presented::Skipped(reason) => PresentedView::Skipped(reason),
        }
    }
}

/// A change the operator made to one control in this tick.
#[derive(Debug, PartialEq, Eq)]
pub enum Edit {
    Integer(i64),
    Boolean(bool),
    /// The label picked in a menu.
    Choice(String),
}

/// Mathematical model of [`Edit`].
pub enum EditView {
    Integer(i64),
    Boolean(bool),
    Choice(Seq<char>),
}

impl View for Edit {
    type V = EditView;

    open spec fn view(&self) -> EditView {
        match *self {
            Edit::Integer(v) => EditView::Integer(v),
            Edit::Boolean(b) => EditView::Boolean(b),
            Edit::Choice(l) => EditView::Choice(l@),
        }
    }
}

/// The state of a control in a tick, given what the hardware read returned
/// (`None` where it failed or was not made) and the shadow table. An integer
/// or boolean control has the value that was read, and no state in a tick
/// whose read failed. A menu has what the shadow table remembers under its
/// name, whatever was read. An unsupported control has no state.
pub open spec fn reading_of(
    d: DescriptorView,
    read: Option<ControlValue>,
    shadow: Map<Seq<char>, Seq<char>>,
) -> Option<ReadingView> {
    match d.kind {
        ControlKind::Integer | ControlKind::Boolean => match read {
            Some(v) => Some(ReadingView::HardwareBacked(v)),
            None => None,
        },
        ControlKind::Menu => Some(
            ReadingView::ShadowBacked(
                if shadow.contains_key(d.name) {
                    Some(shadow[d.name])
                } else {
                    None
                },
            ),
        ),
        ControlKind::Unsupported => None,
    }
}

/// The label a menu shows for a remembered one: the label itself, as long as
/// it is one of the descriptor's labels.
pub open spec fn shown_label(d: DescriptorView, remembered: Option<Seq<char>>) -> Option<
    Seq<char>,
> {
    match remembered {
        Some(label) => if value_of_label(d.items, label) is Some {
            Some(label)
        } else {
            None
        },
        None => None,
    }
}

/// What is shown for a control in the state `reading`.
pub open spec fn shown(d: DescriptorView, reading: Option<ReadingView>) -> PresentedView {
    match d.kind {
        ControlKind::Integer => if d.maximum < d.minimum {
            PresentedView::Skipped(SkipReason::EmptyRange)
        } else {
            match reading {
                None => PresentedView::Skipped(SkipReason::ReadFailed),
                Some(ReadingView::HardwareBacked(ControlValue::Integer(v))) => {
                    PresentedView::Slider {
                        value: d.snap(v as int),
                        minimum: d.minimum,
                        maximum: d.maximum,
                        step: d.step,
                    }
                },
                Some(_) => PresentedView::Skipped(SkipReason::ValueMismatch),
            }
        },
        ControlKind::Boolean => match reading {
            None => PresentedView::Skipped(SkipReason::ReadFailed),
            Some(ReadingView::HardwareBacked(ControlValue::Boolean(b))) => {
                PresentedView::Checkbox { checked: b }
            },
            Some(_) => PresentedView::Skipped(SkipReason::ValueMismatch),
        },
        ControlKind::Menu => if d.items.len() == 0 {
            PresentedView::Skipped(SkipReason::NoChoices)
        } else {
            match reading {
                None => PresentedView::Dropdown { selected: None },
                Some(ReadingView::ShadowBacked(remembered)) => PresentedView::Dropdown {
                    selected: shown_label(d, remembered),
                },
                Some(ReadingView::HardwareBacked(_)) => PresentedView::Skipped(
                    SkipReason::ValueMismatch,
                ),
            }
        },
        ControlKind::Unsupported => PresentedView::Skipped(SkipReason::Unsupported),
    }
}

/// What is shown for a control, given what the hardware read of this tick
/// returned (`None` where it failed or was not made) and the shadow table.
pub open spec fn presentation(
    d: DescriptorView,
    read: Option<ControlValue>,
    shadow: Map<Seq<char>, Seq<char>>,
) -> PresentedView {
    shown(d, reading_of(d, read, shadow))
}

/// The control to read from the hardware for a descriptor in a tick, if any.
pub open spec fn read_request(d: DescriptorView) -> Option<u32> {
    if d.kind.hardware_backed() {
        Some(d.id)
    } else {
        None
    }
}

/// The write that an edit leads to. An integer is clamped and quantised, a
/// boolean goes out as it is, a label is resolved to its raw value. An edit
/// that does not fit the control's kind, a label the menu does not have, and
/// an integer for an empty range lead to no write.
pub open spec fn planned_write(d: DescriptorView, edit: EditView) -> Option<ControlWrite> {
    match (d.kind, edit) {
        (ControlKind::Integer, EditView::Integer(v)) => if d.maximum < d.minimum {
            None
        } else {
            Some(ControlWrite { id: d.id, value: ControlValue::Integer(d.snap(v as int) as i64) })
        },
        (ControlKind::Boolean, EditView::Boolean(b)) => Some(
            ControlWrite { id: d.id, value: ControlValue::Boolean(b) },
        ),
        (ControlKind::Menu, EditView::Choice(label)) => match value_of_label(d.items, label) {
            Some(raw) => Some(ControlWrite { id: d.id, value: ControlValue::Integer(raw as i64) }),
            None => None,
        },
        _ => None,
    }
}

/// The shadow table after an edit: a menu choice that the menu has is
/// remembered at once, whatever becomes of the write.
pub open spec fn shadow_after_edit(
    d: DescriptorView,
    edit: EditView,
    shadow: Map<Seq<char>, Seq<char>>,
) -> Map<Seq<char>, Seq<char>> {
    match (d.kind, edit) {
        (ControlKind::Menu, EditView::Choice(label)) => if value_of_label(d.items, label)
            is Some {
            shadow.insert(d.name, label)
        } else {
            shadow
        },
        _ => shadow,
    }
}

/// The hardware read to make for `desc` in this tick: one for an integer or
/// boolean control, none for a menu or an unsupported control.
pub fn read_request_of(desc: &ControlDescriptor) -> (r: Option<u32>)
    ensures
        r == read_request(desc@),
{
    if desc.kind.is_hardware_backed() {
        Some(desc.id)
    } else {
        None
    }
}

/// The read phase for one control. `read` is what the hardware read of this
/// tick returned, `None` where it failed; a menu takes its state from the
/// shadow table and does not look at `read`.
pub fn read_state(
    desc: &ControlDescriptor,
    read: Option<ControlValue>,
    shadow: &ShadowTable,
) -> (reading: Option<Reading>)
    ensures
        reading_view(reading) == reading_of(desc@, read, shadow@),
{
    match desc.kind {
        ControlKind::Integer => match read {
            Some(v) => Some(Reading::HardwareBacked(v)),
            None => None,
        },
        ControlKind::Boolean => match read {
            Some(v) => Some(Reading::HardwareBacked(v)),
            None => None,
        },
        ControlKind::Menu => Some(Reading::ShadowBacked(shadow.get(&desc.name))),
        ControlKind::Unsupported => None,
    }
}

/// The present phase for one control: a bounded, stepped range for an
/// integer, a flag for a boolean, one of the descriptor's labels for a menu.
pub fn present_state(desc: &ControlDescriptor, reading: Option<Reading>) -> (p: Presented)
    ensures
        p@ == shown(desc@, reading_view(reading)),
        p matches Presented::Slider { value, .. } ==> on_grid(
            desc@.minimum,
            desc@.maximum,
            desc@.step,
            value as int,
        ),
{
    match desc.kind {
        ControlKind::Integer => {
            if desc.maximum < desc.minimum {
                return Presented::Skipped(SkipReason::EmptyRange);
            }
            match reading {
                None => Presented::Skipped(SkipReason::ReadFailed),
                Some(Reading::HardwareBacked(ControlValue::Integer(v))) => Presented::Slider {
                    value: desc.snap(v),
                    minimum: desc.minimum,
                    maximum: desc.maximum,
                    step: desc.step,
                },
                Some(_) => Presented::Skipped(SkipReason::ValueMismatch),
            }
        },
        ControlKind::Boolean => match reading {
            None => Presented::Skipped(SkipReason::ReadFailed),
            Some(Reading::HardwareBacked(ControlValue::Boolean(b))) => Presented::Checkbox {
                checked: b,
            },
            Some(_) => Presented::Skipped(SkipReason::ValueMismatch),
        },
        ControlKind::Menu => {
            if desc.items.len() == 0 {
                return Presented::Skipped(SkipReason::NoChoices);
            }
            match reading {
                None => Presented::Dropdown { selected: None },
                Some(Reading::ShadowBacked(remembered)) => {
                    let selected = match remembered {
                        Some(label) => match desc.value_of_label(&label) {
                            Some(_) => Some(label),
                            None => None,
                        },
                        None => None,
                    };
                    Presented::Dropdown { selected }
                },
                Some(Reading::HardwareBacked(_)) => Presented::Skipped(SkipReason::ValueMismatch),
            }
        },
        ControlKind::Unsupported => Presented::Skipped(SkipReason::Unsupported),
    }
}

/// Reads and presents one control. `read` is what the hardware read of this
/// tick returned, `None` where it failed; it is not looked at for a menu.
pub fn present(desc: &ControlDescriptor, read: Option<ControlValue>, shadow: &ShadowTable) -> (p:
    Presented)
    ensures
        p@ == presentation(desc@, read, shadow@),
        p matches Presented::Slider { value, .. } ==> on_grid(
            desc@.minimum,
            desc@.maximum,
            desc@.step,
            value as int,
        ),
{
    present_state(desc, read_state(desc, read, shadow))
}

/// Turns an edit into the write to issue, and remembers a menu choice in the
/// shadow table before the write goes out.
pub fn plan_write(desc: &ControlDescriptor, edit: Edit, shadow: &mut ShadowTable) -> (w: Option<
    ControlWrite,
>)
    ensures
        w == planned_write(desc@, edit@),
        final(shadow)@ == shadow_after_edit(desc@, edit@, old(shadow)@),
{
    match edit {
        Edit::Integer(v) => {
            if desc.kind == ControlKind::Integer && desc.minimum <= desc.maximum {
                Some(ControlWrite { id: desc.id, value: ControlValue::Integer(desc.snap(v)) })
            } else {
                None
            }
        },
        Edit::Boolean(b) => {
            if desc.kind == ControlKind::Boolean {
                Some(ControlWrite { id: desc.id, value: ControlValue::Boolean(b) })
            } else {
                None
            }
        },
        Edit::Choice(label) => {
            if desc.kind == ControlKind::Menu {
                match desc.value_of_label(&label) {
                    Some(raw) => {
                        shadow.set(desc.name.clone(), label);
                        Some(ControlWrite { id: desc.id, value: ControlValue::Integer(raw) })
                    },
                    None => None,
                }
            } else {
                None
            }
        },
    }
}

/// The write that sets a control back to its default. An integer or menu
/// control takes the default as it stands, a boolean one is on unless the
/// default is zero, an unsupported control is left alone.
pub open spec fn default_write(d: DescriptorView) -> Option<ControlWrite> {
    match d.kind {
        ControlKind::Integer => Some(
            ControlWrite { id: d.id, value: ControlValue::Integer(d.default as i64) },
        ),
        ControlKind::Menu => Some(
            ControlWrite { id: d.id, value: ControlValue::Integer(d.default as i64) },
        ),
        ControlKind::Boolean => Some(
            ControlWrite { id: d.id, value: ControlValue::Boolean(d.default != 0) },
        ),
        ControlKind::Unsupported => None,
    }
}

/// The shadow table after one control was set back to its default: a menu
/// shows the label of its default, or nothing where no entry has that value.
pub open spec fn shadow_after_default(
    d: DescriptorView,
    shadow: Map<Seq<char>, Seq<char>>,
) -> Map<Seq<char>, Seq<char>> {
    if d.kind == ControlKind::Menu {
        match label_of_value(d.items, d.default) {
            Some(label) => shadow.insert(d.name, label),
            None => shadow.remove(d.name),
        }
    } else {
        shadow
    }
}

/// The writes of a restore over a whole catalog, in catalog order.
pub open spec fn restore_writes(catalog: Seq<ControlDescriptor>) -> Seq<ControlWrite>
    decreases catalog.len(),
{
    if catalog.len() == 0 {
        Seq::empty()
    } else {
        let earlier = restore_writes(catalog.drop_last());
        match default_write(catalog.last()@) {
            Some(w) => earlier.push(w),
            None => earlier,
        }
    }
}

/// The shadow table after a restore over a whole catalog.
pub open spec fn restore_shadow(
    catalog: Seq<ControlDescriptor>,
    shadow: Map<Seq<char>, Seq<char>>,
) -> Map<Seq<char>, Seq<char>>
    decreases catalog.len(),
{
    if catalog.len() == 0 {
        shadow
    } else {
        shadow_after_default(catalog.last()@, restore_shadow(catalog.drop_last(), shadow))
    }
}

/// The read outcome that belongs to control `i` of a catalog; a missing one
/// counts as a failed read.
pub open spec fn read_at(reads: Seq<Option<ControlValue>>, i: int) -> Option<ControlValue> {
    if 0 <= i < reads.len() {
        reads[i]
    } else {
        None
    }
}

/// Sets one control back to its default: remembers the default's label for a
/// menu, then gives the write to issue.
pub fn restore_default(desc: &ControlDescriptor, shadow: &mut ShadowTable) -> (w: Option<
    ControlWrite,
>)
    ensures
        w == default_write(desc@),
        final(shadow)@ == shadow_after_default(desc@, old(shadow)@),
{
    match desc.kind {
        ControlKind::Integer => Some(
            ControlWrite { id: desc.id, value: ControlValue::Integer(desc.default) },
        ),
        ControlKind::Boolean => Some(
            ControlWrite { id: desc.id, value: ControlValue::Boolean(desc.default != 0) },
        ),
        ControlKind::Menu => {
            match desc.label_of_value(desc.default) {
                Some(label) => shadow.set(desc.name.clone(), label),
                None => shadow.forget(desc.name.clone()),
            }
            Some(ControlWrite { id: desc.id, value: ControlValue::Integer(desc.default) })
        },
        ControlKind::Unsupported => None,
    }
}

/// Restores the defaults of a whole catalog. The result lists one write for
/// every control of a supported kind, in catalog order; the caller issues
/// each of them whatever became of the ones before it. The shadow table shows
/// the defaults of the menus as soon as this returns.
pub fn restore_defaults(catalog: &Vec<ControlDescriptor>, shadow: &mut ShadowTable) -> (writes:
    Vec<ControlWrite>)
    ensures
        writes@ == restore_writes(catalog@),
        final(shadow)@ == restore_shadow(catalog@, old(shadow)@),
{
    let mut writes: Vec<ControlWrite> = Vec::new();
    let mut i: usize = 0;
    assert(catalog@.take(0).len() == 0);
    while i < catalog.len()
        invariant
            i <= catalog@.len(),
            writes@ == restore_writes(catalog@.take(i as int)),
            shadow@ == restore_shadow(catalog@.take(i as int), old(shadow)@),
        decreases catalog@.len() - i,
    {
        proof {
            let next = catalog@.take(i + 1);
            assert(next.drop_last() == catalog@.take(i as int));
            assert(next.last() == catalog@[i as int]);
        }
        match restore_default(&catalog[i], shadow) {
            Some(w) => writes.push(w),
            None => {},
        }
        i += 1;
    }
    assert(catalog@.take(i as int) == catalog@);
    writes
}

/// The hardware reads of one tick: one entry per control of the catalog,
/// holding the control to read, or `None` for a control that is not read. No
/// control is asked for twice.
pub fn read_plan(catalog: &Vec<ControlDescriptor>) -> (plan: Vec<Option<u32>>)
    ensures
        plan@.len() == catalog@.len(),
        forall|i: int| 0 <= i < catalog@.len() ==> plan@[i] == read_request(catalog@[i]@),
{
    let mut plan: Vec<Option<u32>> = Vec::new();
    let mut i: usize = 0;
    while i < catalog.len()
        invariant
            i <= catalog@.len(),
            plan@.len() == i,
            forall|k: int| 0 <= k < i ==> plan@[k] == read_request(catalog@[k]@),
        decreases catalog@.len() - i,
    {
        plan.push(read_request_of(&catalog[i]));
        i += 1;
    }
    plan
}

/// Presents every control of a catalog for one tick. `reads` holds, for each
/// control in catalog order, what its hardware read returned. What is shown
/// for a control depends on its own read alone.
pub fn present_all(
    catalog: &Vec<ControlDescriptor>,
    reads: &Vec<Option<ControlValue>>,
    shadow: &ShadowTable,
) -> (shown: Vec<Presented>)
    ensures
        shown@.len() == catalog@.len(),
        forall|i: int|
            0 <= i < catalog@.len() ==> shown@[i]@ == presentation(
                catalog@[i]@,
                read_at(reads@, i),
                shadow@,
            ),
{
    let mut shown: Vec<Presented> = Vec::new();
    let mut i: usize = 0;
    while i < catalog.len()
        invariant
            i <= catalog@.len(),
            shown@.len() == i,
            forall|k: int|
                0 <= k < i ==> shown@[k]@ == presentation(
                    catalog@[k]@,
                    read_at(reads@, k),
                    shadow@,
                ),
        decreases catalog@.len() - i,
    {
        let read = if i < reads.len() {
            reads[i]
        } else {
            None
        };
        shown.push(present(&catalog[i], read, shadow));
        i += 1;
    }
    shown
}

/// An integer control is only ever shown with a value inside its range that
/// is a whole number of steps above the minimum, whatever the hardware
/// reported.
pub proof fn lemma_presented_value_on_grid(
    d: DescriptorView,
    read: Option<ControlValue>,
    shadow: Map<Seq<char>, Seq<char>>,
)
    requires
        d.kind == ControlKind::Integer,
    ensures
        presentation(d, read, shadow) matches PresentedView::Slider {
            value,
            minimum,
            maximum,
            step,
        } ==> {
            &&& minimum == d.minimum
            &&& maximum == d.maximum
            &&& step == d.step
            &&& on_grid(d.minimum, d.maximum, d.step, value)
        },
        presentation(d, read, shadow) is Slider || presentation(d, read, shadow) is Skipped,
{
    if d.minimum <= d.maximum {
        if let Some(ControlValue::Integer(v)) = read {
            crate::control::lemma_snapped_on_grid(d.minimum, d.maximum, d.step, v as int);
        }
    }
}

/// An integer write that comes from an edit carries a value inside the range
/// and on the grid.
pub proof fn lemma_written_value_on_grid(d: DescriptorView, v: i64)
    requires
        d.kind == ControlKind::Integer,
        i64::MIN <= d.minimum <= d.maximum <= i64::MAX,
    ensures
        planned_write(d, EditView::Integer(v)) matches Some(w) && {
            &&& w.id == d.id
            &&& w.value matches ControlValue::Integer(x) && on_grid(
                d.minimum,
                d.maximum,
                d.step,
                x as int,
            )
        },
{
    crate::control::lemma_snapped_on_grid(d.minimum, d.maximum, d.step, v as int);
}

/// A descriptor that cannot be presented is skipped in every tick.
pub proof fn lemma_unpresentable_is_skipped(
    d: DescriptorView,
    read: Option<ControlValue>,
    shadow: Map<Seq<char>, Seq<char>>,
)
    requires
        !d.presentable(),
    ensures
        presentation(d, read, shadow) is Skipped,
{
}

/// The state of a menu is always shadow-backed, that of an integer or
/// boolean control is hardware-backed whenever it has one.
pub proof fn lemma_state_sources(
    d: DescriptorView,
    read: Option<ControlValue>,
    shadow: Map<Seq<char>, Seq<char>>,
)
    ensures
        d.kind == ControlKind::Menu ==> reading_of(d, read, shadow) matches Some(
            ReadingView::ShadowBacked(_),
        ),
        d.kind.hardware_backed() ==> (reading_of(d, read, shadow) matches Some(r) ==> r
            is HardwareBacked),
        d.kind.hardware_backed() ==> (reading_of(d, read, shadow) is None <==> read is None),
{
}

/// What a menu shows does not depend on any hardware read, and no read is
/// asked for it.
pub proof fn lemma_menu_never_read(
    d: DescriptorView,
    r1: Option<ControlValue>,
    r2: Option<ControlValue>,
    shadow: Map<Seq<char>, Seq<char>>,
)
    requires
        d.kind == ControlKind::Menu,
    ensures
        read_request(d) is None,
        presentation(d, r1, shadow) == presentation(d, r2, shadow),
{
}

/// A read that fails for one control changes nothing in what the same tick
/// shows for any other control.
pub proof fn lemma_read_failure_is_local(
    catalog: Seq<DescriptorView>,
    reads: Seq<Option<ControlValue>>,
    shadow: Map<Seq<char>, Seq<char>>,
    failed: int,
)
    requires
        0 <= failed < reads.len(),
    ensures
        forall|i: int|
            0 <= i < catalog.len() && i != failed ==> presentation(
                #[trigger] catalog[i],
                read_at(reads.update(failed, None), i),
                shadow,
            ) == presentation(catalog[i], read_at(reads, i), shadow),
{
}

/// The label found for a raw value is one that the menu resolves.
pub proof fn lemma_label_of_value_resolves(items: Seq<crate::control::MenuEntryView>, value: int)
    ensures
        label_of_value(items, value) matches Some(label) ==> value_of_label(items, label)
            is Some,
    decreases items.len(),
{
    if items.len() > 0 {
        lemma_label_of_value_resolves(items.drop_first(), value);
    }
}

/// After a menu control was set back to its default, it shows the label of
/// the default, and showing it needs no hardware read.
pub proof fn lemma_restored_menu_shows_default(
    d: DescriptorView,
    read: Option<ControlValue>,
    shadow: Map<Seq<char>, Seq<char>>,
)
    requires
        d.kind == ControlKind::Menu,
        d.items.len() > 0,
    ensures
        presentation(d, read, shadow_after_default(d, shadow)) == (PresentedView::Dropdown {
            selected: label_of_value(d.items, d.default),
        }),
        read_request(d) is None,
{
    lemma_label_of_value_resolves(d.items, d.default);
}

/// After a restore over a whole catalog, every menu control shows the label
/// of its default. Where several menu controls share a name, this holds of
/// the last of them.
pub proof fn lemma_restore_shows_defaults(
    catalog: Seq<ControlDescriptor>,
    shadow: Map<Seq<char>, Seq<char>>,
    i: int,
    read: Option<ControlValue>,
)
    requires
        0 <= i < catalog.len(),
        catalog[i].kind == ControlKind::Menu,
        catalog[i].items@.len() > 0,
        forall|j: int|
            i < j < catalog.len() && catalog[j].kind == ControlKind::Menu ==> catalog[j].name@
                != catalog[i].name@,
    ensures
        presentation(catalog[i]@, read, restore_shadow(catalog, shadow)) == (
        PresentedView::Dropdown {
            selected: label_of_value(catalog[i]@.items, catalog[i]@.default),
        }),
    decreases catalog.len(),
{
    let earlier = catalog.drop_last();
    if i == catalog.len() - 1 {
        lemma_restored_menu_shows_default(catalog[i]@, read, restore_shadow(earlier, shadow));
    } else {
        assert(earlier[i] == catalog[i]);
        assert forall|j: int|
            i < j < earlier.len() && earlier[j].kind == ControlKind::Menu implies earlier[j].name@
            != earlier[i].name@ by {
            assert(earlier[j] == catalog[j]);
        }
        lemma_restore_shows_defaults(earlier, shadow, i, read);
    }
}

} // verus!
