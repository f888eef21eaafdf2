//! The active device session: which device is selected, the stream that is
//! bound to it, its control catalog and the shadow table of its menus.

use crate::catalog::clustered;
use crate::catalog::get_descriptors;
use crate::catalog::queried_or_empty;
use crate::control::ControlDescriptor;
use crate::control::ControlKind;
use crate::control::DescriptorView;
use crate::devices::initial_selection;
use crate::devices::DeviceHandle;
use crate::devices::StartupError;
use crate::shadow::ShadowTable;
use crate::sync::plan_write;
use crate::sync::planned_write;
use crate::sync::present_all;
use crate::sync::presentation;
use crate::sync::read_at;
use crate::sync::read_plan;
use crate::sync::read_request;
use crate::sync::restore_defaults;
use crate::sync::restore_shadow;
use crate::sync::restore_writes;
use crate::sync::shadow_after_edit;
use crate::sync::ControlValue;
use crate::sync::ControlWrite;
use crate::sync::Edit;
use crate::sync::Presented;
use crate::sync::PresentedView;
use vstd::prelude::*;

verus! {

/// The state of the application between ticks. `S` is the caller's stream
/// type; the session owns the one stream that is open, if any.
pub struct Session<S> {
    /// The devices on offer, in the order they were discovered.
    pub devices: Vec<DeviceHandle>,
    /// Index into `devices` of the device the session is bound to.
    pub selected: usize,
    /// The stream of the selected device; `None` between a switch and the
    /// next successful open.
    pub stream: Option<S>,
    /// The controls of the selected device, clustered by kind.
    pub catalog: Vec<ControlDescriptor>,
    /// What the menus of the selected device show.
    pub shadow: ShadowTable,
}

/// Mathematical model of a [`Session`].
pub struct SessionView<S> {
    pub devices: Seq<DeviceHandle>,
    pub selected: usize,
    pub stream: Option<S>,
    pub catalog: Seq<ControlDescriptor>,
    pub shadow: Map<Seq<char>, Seq<char>>,
}

impl<S> View for Session<S> {
    type V = SessionView<S>;

    open spec fn view(&self) -> SessionView<S> {
        SessionView {
            devices: self.devices@,
            selected: self.selected,
            stream: self.stream,
            catalog: self.catalog@,
            shadow: self.shadow@,
        }
    }
}

/// What a selection by the operator asks of the caller.
#[derive(Debug, PartialEq, Eq)]
pub enum Switch<S> {
    /// The selection names the active device, or no device at all: nothing
    /// is torn down and nothing is opened.
    Stay,
    /// Another device was selected. The caller releases `released` first and
    /// then opens the device at index `device` of the session's list.
    Reopen { released: Option<S>, device: usize },
}

impl<S> SessionView<S> {
    /// Whether selecting `chosen` changes the device: it names another
    /// offered device than the selected one.
    pub open spec fn switches_on(self, chosen: usize) -> bool {
        chosen != self.selected && chosen < self.devices.len()
    }

    /// The session after the operator selected `chosen`.
    pub open spec fn after_select(self, chosen: usize) -> SessionView<S> {
        if self.switches_on(chosen) {
            SessionView {
                devices: self.devices,
                selected: chosen,
                stream: None,
                catalog: Seq::empty(),
                shadow: Map::empty(),
            }
        } else {
            self
        }
    }

    /// The session after a device was opened for it.
    pub open spec fn after_attach(
        self,
        stream: S,
        queried: Option<Vec<ControlDescriptor>>,
    ) -> SessionView<S> {
        SessionView {
            devices: self.devices,
            selected: self.selected,
            stream: Some(stream),
            catalog: clustered(queried_or_empty(queried)),
            shadow: Map::empty(),
        }
    }

    /// The session after the operator edited control `control` of the catalog.
    pub open spec fn after_edit(self, control: usize, edit: crate::sync::EditView) -> SessionView<
        S,
    > {
        if control < self.catalog.len() {
            SessionView {
                devices: self.devices,
                selected: self.selected,
                stream: self.stream,
                catalog: self.catalog,
                shadow: shadow_after_edit(self.catalog[control as int]@, edit, self.shadow),
            }
        } else {
            self
        }
    }
}

impl<S> Session<S> {
    /// A session on the devices that discovery offers, bound to the first of
    /// them and without a stream yet. Fails where nothing is on offer.
    pub fn new(devices: Vec<DeviceHandle>) -> (r: Result<Session<S>, StartupError>)
        ensures
            devices@.len() == 0 <==> r is Err,
            r matches Err(e) ==> e == StartupError::NoUsableDevice,
            r matches Ok(session) ==> session@ == (SessionView::<S> {
                devices: devices@,
                selected: 0,
                stream: None,
                catalog: Seq::empty(),
                shadow: Map::empty(),
            }),
    {
        match initial_selection(&devices) {
            Ok(selected) => Ok(
                Session {
                    devices,
                    selected,
                    stream: None,
                    catalog: Vec::new(),
                    shadow: ShadowTable::new(),
                },
            ),
            Err(e) => Err(e),
        }
    }

    /// Takes the operator's device selection. Selecting the active device
    /// again changes nothing: the stream stays the one it was. Selecting
    /// another device hands the old stream out for release and empties the
    /// catalog and the shadow table.
    pub fn select(&mut self, chosen: usize) -> (switch: Switch<S>)
        ensures
            final(self)@ == old(self)@.after_select(chosen),
            !old(self)@.switches_on(chosen) ==> switch is Stay && *final(self) == *old(self),
            old(self)@.switches_on(chosen) ==> switch == (Switch::Reopen {
                released: old(self).stream,
                device: chosen,
            }),
    {
        if chosen == self.selected || chosen >= self.devices.len() {
            return Switch::Stay;
        }
        let released = self.stream.take();
        self.selected = chosen;
        self.catalog.clear();
        self.shadow.clear();
        Switch::Reopen { released, device: chosen }
    }

    /// Binds the session to a freshly opened device: its stream, and the
    /// catalog built from what its control query delivered. The shadow table
    /// starts empty, whatever it held for an earlier device.
    pub fn attach(&mut self, stream: S, queried: Option<Vec<ControlDescriptor>>)
        ensures
            final(self)@ == old(self)@.after_attach(stream, queried),
    {
        self.stream = Some(stream);
        self.catalog = get_descriptors(queried);
        self.shadow.clear();
    }

    /// The hardware reads of this tick, one entry per control of the catalog.
    pub fn read_plan(&self) -> (plan: Vec<Option<u32>>)
        ensures
            plan@.len() == self@.catalog.len(),
            forall|i: int|
                0 <= i < self@.catalog.len() ==> plan@[i] == read_request(self@.catalog[i]@),
    {
        read_plan(&self.catalog)
    }

    /// What this tick shows for every control of the catalog.
    pub fn present(&self, reads: &Vec<Option<ControlValue>>) -> (shown: Vec<Presented>)
        ensures
            shown@.len() == self@.catalog.len(),
            forall|i: int|
                0 <= i < self@.catalog.len() ==> shown@[i]@ == presentation(
                    self@.catalog[i]@,
                    read_at(reads@, i),
                    self@.shadow,
                ),
    {
        present_all(&self.catalog, reads, &self.shadow)
    }

    /// Takes an edit of control `control` of the catalog and gives the write
    /// to issue. An index outside the catalog leads to nothing.
    pub fn edit(&mut self, control: usize, edit: Edit) -> (w: Option<ControlWrite>)
        ensures
            final(self)@ == old(self)@.after_edit(control, edit@),
            control < old(self)@.catalog.len() ==> w == planned_write(
                old(self)@.catalog[control as int]@,
                edit@,
            ),
            control >= old(self)@.catalog.len() ==> w is None,
    {
        if control < self.catalog.len() {
            plan_write(&self.catalog[control], edit, &mut self.shadow)
        } else {
            None
        }
    }

    /// Sets every control back to its default and gives the writes to issue.
    pub fn restore(&mut self) -> (writes: Vec<ControlWrite>)
        ensures
            writes@ == restore_writes(old(self)@.catalog),
            final(self)@ == (SessionView {
                shadow: restore_shadow(old(self)@.catalog, old(self)@.shadow),
                ..old(self)@
            }),
    {
        restore_defaults(&self.catalog, &mut self.shadow)
    }
}

/// Selecting the device that is already active changes nothing in the
/// session; in particular the stream is the very one it was.
pub proof fn lemma_reselect_keeps_stream<S>(session: SessionView<S>)
    ensures
        session.after_select(session.selected) == session,
        session.after_select(session.selected).stream == session.stream,
{
}

/// After a switch to another device no menu shows a selection, whatever was
/// selected before.
pub proof fn lemma_switch_forgets_selections<S>(
    session: SessionView<S>,
    chosen: usize,
    d: DescriptorView,
    read: Option<ControlValue>,
)
    requires
        session.switches_on(chosen),
        d.kind == ControlKind::Menu,
        d.items.len() > 0,
    ensures
        session.after_select(chosen).shadow == Map::<Seq<char>, Seq<char>>::empty(),
        presentation(d, read, session.after_select(chosen).shadow) == (PresentedView::Dropdown {
            selected: None,
        }),
{
}

/// Going from one device to another and back does not bring the first
/// device's menu selections back: whatever was selected before the first
/// switch and on the device in between, the shadow table is empty once the
/// first device is attached again.
pub proof fn lemma_return_does_not_resurrect<S>(
    session: SessionView<S>,
    other: usize,
    other_stream: S,
    other_queried: Option<Vec<ControlDescriptor>>,
    between: Map<Seq<char>, Seq<char>>,
    again_stream: S,
    again_queried: Option<Vec<ControlDescriptor>>,
)
    requires
        session.switches_on(other),
        session.selected < session.devices.len(),
    ensures
        ({
            let away = session.after_select(other).after_attach(other_stream, other_queried);
            let edited = SessionView { shadow: between, ..away };
            let back = edited.after_select(session.selected).after_attach(
                again_stream,
                again_queried,
            );
            back.selected == session.selected && back.shadow == Map::<
                Seq<char>,
                Seq<char>,
            >::empty()
        }),
{
}

} // verus!
