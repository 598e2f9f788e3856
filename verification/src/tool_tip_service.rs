//! The tooltip service: the one active owner, when each owner's tooltip is delayed, shown,
//! faded and closed, and the timers and overlay changes that asks of its host.

use vstd::prelude::*;
use crate::keys::Key;
use crate::tool_tip::{
    pointer_action, show_delay_millis, special_key, spec_pointer_action, spec_show_delay_millis,
    spec_special_key, spec_without, HoverStack, InputMode, PointerEventKind, ToolTipPointerAction,
};

verus! {

/// The tooltip state of one owner.
#[derive(Clone, Copy, Debug, PartialEq, Eq, Structural)]
pub struct ToolTipOwner {
    /// The input that last began or showed the tooltip.
    pub input: InputMode,
    /// The tooltip is shown, its closing fade included.
    pub open: bool,
    /// The tooltip has faded in.
    pub visible: bool,
    /// Automatic input does not begin this owner until the pointer or focus comes back.
    pub suppressed: bool,
    /// Its opening delay runs.
    pub open_pending: bool,
    /// Its closing fade runs.
    pub closing: bool,
    /// Counts show and close changes; a callback of an earlier change is stale.
    pub epoch: u64,
}

/// What the service asks of its host after an event.
#[derive(Clone, Copy, Debug, PartialEq, Eq, Structural)]
pub enum ToolTipCommand {
    /// Start the owner's opening delay; when it ends, report `open_timer_fired`.
    StartOpenTimer { owner: usize, delay_millis: u64 },
    CancelOpenTimer { owner: usize },
    /// Start the owner's closing fade; when it ends, report `fade_finished` with this epoch.
    StartCloseTimer { owner: usize, epoch: u64 },
    CancelCloseTimer { owner: usize },
    /// Cancel the recent-close timer and start it again; when it ends, report
    /// `recent_timer_fired`.
    RestartRecentTimer,
    /// Show the owner's overlay; after the next frame, report `frame_shown` with this epoch.
    ShowOverlay { owner: usize, epoch: u64 },
    HideOverlay { owner: usize },
    RaiseOpened { owner: usize },
    RaiseClosed { owner: usize },
}

/// The service as values: the owners, the active owner, the hovered owners innermost last,
/// whether a tooltip closed recently, and whether the last input was a pointer press.
pub struct ServiceModel {
    pub owners: Seq<ToolTipOwner>,
    pub active: Option<usize>,
    pub hovered: Seq<usize>,
    pub recent_close: bool,
    pub pointer_input: bool,
}

/// The tooltip owners of one application and the state they share.
#[derive(Debug)]
pub struct ToolTipService {
    pub owners: Vec<ToolTipOwner>,
    pub active: Option<usize>,
    pub hovered: HoverStack,
    pub recent_close: bool,
    pub pointer_input: bool,
}

impl View for ToolTipService {
    type V = ServiceModel;

    open spec fn view(&self) -> ServiceModel {
        ServiceModel {
            owners: self.owners@,
            active: self.active,
            hovered: self.hovered.hovered@,
            recent_close: self.recent_close,
            pointer_input: self.pointer_input,
        }
    }
}

/// The active owner exists, only the active owner waits to open, and only a shown tooltip
/// fades.
pub open spec fn spec_wf(m: ServiceModel) -> bool {
    &&& m.owners.len() <= usize::MAX
    &&& (m.active matches Some(a) ==> a < m.owners.len())
    &&& forall|i: int|
        0 <= i < m.owners.len() && (#[trigger] m.owners[i]).open_pending ==> m.active == Some(
            i as usize,
        )
    &&& forall|i: int| 0 <= i < m.owners.len() && (#[trigger] m.owners[i]).closing ==> m.owners[i].open
}

/// The epoch after `e`, wrapping at the end of the range.
pub open spec fn spec_next_epoch(e: u64) -> u64 {
    if e == u64::MAX {
        0
    } else {
        (e + 1) as u64
    }
}

pub open spec fn spec_set(m: ServiceModel, id: usize, o: ToolTipOwner) -> ServiceModel {
    ServiceModel { owners: m.owners.update(id as int, o), ..m }
}

pub open spec fn spec_if_cmd(cond: bool, c: ToolTipCommand) -> Seq<ToolTipCommand> {
    if cond {
        seq![c]
    } else {
        seq![]
    }
}

/// Closing an owner cancels its opening delay, suppresses it and ends its activity; a shown
/// tooltip that is not already fading marks a recent close and starts its fade.
pub open spec fn spec_close(m: ServiceModel, id: usize) -> (ServiceModel, Seq<ToolTipCommand>) {
    let o = m.owners[id as int];
    let cancel = spec_if_cmd(o.open_pending, ToolTipCommand::CancelOpenTimer { owner: id });
    let o1 = ToolTipOwner { open_pending: false, suppressed: true, ..o };
    let active = if m.active == Some(id) {
        None
    } else {
        m.active
    };
    if !o.open || o.closing {
        (ServiceModel { owners: m.owners.update(id as int, o1), active, ..m }, cancel)
    } else {
        let epoch = spec_next_epoch(o.epoch);
        (
            ServiceModel {
                owners: m.owners.update(
                    id as int,
                    ToolTipOwner { visible: false, closing: true, epoch, ..o1 },
                ),
                active,
                recent_close: true,
                ..m
            },
            cancel + seq![
                ToolTipCommand::RestartRecentTimer,
                ToolTipCommand::StartCloseTimer { owner: id, epoch },
            ],
        )
    }
}

/// Showing an enabled owner cancels its fade; a shown tooltip fades back in, and a hidden one
/// opens its overlay and fades in after the next frame.
pub open spec fn spec_show(m: ServiceModel, id: usize, is_enabled: bool) -> (
    ServiceModel,
    Seq<ToolTipCommand>,
) {
    let o = m.owners[id as int];
    if !is_enabled {
        (m, seq![])
    } else {
        let cancel = spec_if_cmd(o.closing, ToolTipCommand::CancelCloseTimer { owner: id });
        let epoch = spec_next_epoch(o.epoch);
        if o.open {
            (spec_set(m, id, ToolTipOwner { closing: false, visible: true, epoch, ..o }), cancel)
        } else {
            (
                spec_set(
                    m,
                    id,
                    ToolTipOwner { closing: false, open: true, visible: false, epoch, ..o },
                ),
                cancel + seq![ToolTipCommand::ShowOverlay { owner: id, epoch }],
            )
        }
    }
}

/// Beginning an automatic, unsuppressed owner that is not active closes the active owner,
/// makes this one active and starts its delay for the input, shortened after a recent close.
pub open spec fn spec_begin(m: ServiceModel, id: usize, automatic: bool, input: InputMode) -> (
    ServiceModel,
    Seq<ToolTipCommand>,
) {
    if !automatic || m.owners[id as int].suppressed || m.active == Some(id) {
        (m, seq![])
    } else {
        let closed = match m.active {
            Some(p) => spec_close(m, p),
            None => (m, seq![]),
        };
        let m1 = closed.0;
        let o = m1.owners[id as int];
        let delay = spec_show_delay_millis(input, m1.recent_close);
        (
            ServiceModel {
                owners: m1.owners.update(id as int, ToolTipOwner { input, open_pending: true, ..o }),
                active: Some(id),
                ..m1
            },
            closed.1 + seq![ToolTipCommand::StartOpenTimer { owner: id, delay_millis: delay }],
        )
    }
}

pub open spec fn spec_unsuppress(m: ServiceModel, id: usize) -> ServiceModel {
    spec_set(m, id, ToolTipOwner { suppressed: false, ..m.owners[id as int] })
}

/// The pointer enters an owner: it is no longer suppressed, it becomes the innermost hovered
/// owner, and it begins with mouse input.
pub open spec fn spec_enter(m: ServiceModel, id: usize, automatic: bool) -> (
    ServiceModel,
    Seq<ToolTipCommand>,
) {
    let m1 = ServiceModel {
        hovered: if m.hovered.contains(id) {
            m.hovered
        } else {
            m.hovered.push(id)
        },
        ..spec_unsuppress(m, id)
    };
    spec_begin(m1, id, automatic, InputMode::Mouse)
}

/// The pointer leaves an owner: it is no longer hovered nor suppressed, and a tooltip that is
/// not shown is closed without suppressing the owner; a shown one stays for its safe zone.
pub open spec fn spec_leave(m: ServiceModel, id: usize) -> (ServiceModel, Seq<ToolTipCommand>) {
    let m1 = ServiceModel {
        hovered: spec_without(m.hovered, id),
        ..spec_unsuppress(m, id)
    };
    if !m1.owners[id as int].open {
        let closed = spec_close(m1, id);
        (spec_unsuppress(closed.0, id), closed.1)
    } else {
        (m1, seq![])
    }
}

/// A pointer event reaching an owner: a press records pointer input; then the pointer policy
/// closes the active tooltip, keeps it while the pointer stays in the safe zone, or begins the
/// innermost hovered owner.
pub open spec fn spec_pointer_event(
    m: ServiceModel,
    id: usize,
    event: PointerEventKind,
    automatic: bool,
    in_safe_zone: bool,
) -> (ServiceModel, Seq<ToolTipCommand>) {
    let m1 = if event == PointerEventKind::Down {
        ServiceModel { pointer_input: true, ..m }
    } else {
        m
    };
    let o = m1.owners[id as int];
    let action = spec_pointer_action(
        event,
        automatic,
        m1.active == Some(id),
        m1.active is Some,
        m1.hovered.len() > 0 && m1.hovered.last() == id,
        o.input,
        o.open,
    );
    match action {
        ToolTipPointerAction::Close => spec_close(m1, id),
        ToolTipPointerAction::CheckSafeZone => if in_safe_zone {
            (m1, seq![])
        } else {
            spec_close(m1, id)
        },
        ToolTipPointerAction::BeginMouse => spec_begin(m1, id, automatic, InputMode::Mouse),
        _ => (m1, seq![]),
    }
}

/// A key press ends pointer input and closes the active owner's tooltip, unless it is shown
/// and the key is one that leaves it visible.
pub open spec fn spec_key_down(m: ServiceModel, id: usize, key: Key) -> (
    ServiceModel,
    Seq<ToolTipCommand>,
) {
    let m1 = ServiceModel { pointer_input: false, ..m };
    if m1.active == Some(id) && (!m1.owners[id as int].open || !spec_special_key(key)) {
        spec_close(m1, id)
    } else {
        (m1, seq![])
    }
}

/// Keyboard focus arriving without pointer input begins the owner with keyboard input; focus
/// leaving an owner begun by the keyboard closes it.
pub open spec fn spec_focus_changed(m: ServiceModel, id: usize, focused: bool, automatic: bool) -> (
    ServiceModel,
    Seq<ToolTipCommand>,
) {
    if focused && !m.pointer_input {
        spec_begin(spec_unsuppress(m, id), id, automatic, InputMode::Keyboard)
    } else if !focused && m.owners[id as int].input == InputMode::Keyboard {
        spec_close(m, id)
    } else {
        (m, seq![])
    }
}

/// The owner's controlled open value or enabled state changed: an enabled owner asked to be
/// open shows with explicit input; otherwise it closes.
pub open spec fn spec_controlled_change(
    m: ServiceModel,
    id: usize,
    is_enabled: bool,
    open_requested: bool,
) -> (ServiceModel, Seq<ToolTipCommand>) {
    if is_enabled && open_requested {
        spec_show(
            spec_set(m, id, ToolTipOwner { input: InputMode::Explicit, ..m.owners[id as int] }),
            id,
            is_enabled,
        )
    } else {
        spec_close(m, id)
    }
}

/// The opening delay ended: the owner shows.
pub open spec fn spec_open_timer_fired(m: ServiceModel, id: usize, is_enabled: bool) -> (
    ServiceModel,
    Seq<ToolTipCommand>,
) {
    spec_show(
        spec_set(m, id, ToolTipOwner { open_pending: false, ..m.owners[id as int] }),
        id,
        is_enabled,
    )
}

/// The frame after showing the overlay: unless a later change intervened, the tooltip fades in
/// and Opened is raised.
pub open spec fn spec_frame_shown(m: ServiceModel, id: usize, epoch: u64) -> (
    ServiceModel,
    Seq<ToolTipCommand>,
) {
    let o = m.owners[id as int];
    if o.epoch == epoch {
        (spec_set(m, id, ToolTipOwner { visible: true, ..o }), seq![ToolTipCommand::RaiseOpened { owner: id }])
    } else {
        (m, seq![])
    }
}

/// The closing fade ended: unless a later change intervened, the overlay hides and Closed is
/// raised.
pub open spec fn spec_fade_finished(m: ServiceModel, id: usize, epoch: u64) -> (
    ServiceModel,
    Seq<ToolTipCommand>,
) {
    let o = m.owners[id as int];
    if o.epoch == epoch {
        (
            spec_set(m, id, ToolTipOwner { closing: false, open: false, ..o }),
            seq![ToolTipCommand::HideOverlay { owner: id }, ToolTipCommand::RaiseClosed { owner: id }],
        )
    } else {
        (m, seq![])
    }
}

/// A resize of the window closes a tooltip that input other than an explicit request opened.
pub open spec fn spec_resized(m: ServiceModel, id: usize) -> (ServiceModel, Seq<ToolTipCommand>) {
    if m.owners[id as int].input != InputMode::Explicit {
        spec_close(m, id)
    } else {
        (m, seq![])
    }
}

/// An owner leaves the tree: its timers stop, and it is neither hovered nor active.
pub open spec fn spec_dispose(m: ServiceModel, id: usize) -> (ServiceModel, Seq<ToolTipCommand>) {
    let o = m.owners[id as int];
    (
        ServiceModel {
            owners: m.owners.update(id as int, ToolTipOwner { open_pending: false, closing: false, ..o }),
            hovered: spec_without(m.hovered, id),
            active: if m.active == Some(id) {
                None
            } else {
                m.active
            },
            ..m
        },
        spec_if_cmd(o.open_pending, ToolTipCommand::CancelOpenTimer { owner: id }) + spec_if_cmd(
            o.closing,
            ToolTipCommand::CancelCloseTimer { owner: id },
        ),
    )
}

/// The owner an owner starts as.
pub open spec fn spec_new_owner() -> ToolTipOwner {
    ToolTipOwner {
        input: InputMode::Explicit,
        open: false,
        visible: false,
        suppressed: false,
        open_pending: false,
        closing: false,
        epoch: 0,
    }
}

proof fn lemma_close_wf(m: ServiceModel, id: usize)
    requires
        spec_wf(m),
        id < m.owners.len(),
    ensures
        spec_wf(spec_close(m, id).0),
        spec_close(m, id).0.owners.len() == m.owners.len(),
        spec_close(m, id).0.active != Some(id),
        spec_close(m, id).0.active is Some ==> spec_close(m, id).0.active == m.active,
        spec_close(m, id).0.hovered == m.hovered,
        spec_close(m, id).0.pointer_input == m.pointer_input,
{
    let r = spec_close(m, id).0;
    assert forall|i: int| 0 <= i < r.owners.len() && (#[trigger] r.owners[i]).open_pending implies r.active
        == Some(i as usize) by {
        assert(i != id);
        assert(r.owners[i] == m.owners[i]);
        assert(m.owners[i].open_pending);
        assert(m.active == Some(i as usize));
    }
    assert forall|i: int| 0 <= i < r.owners.len() && (#[trigger] r.owners[i]).closing implies r.owners[i].open by {
        if i != id {
            assert(r.owners[i] == m.owners[i]);
        }
    }
}

proof fn lemma_show_wf(m: ServiceModel, id: usize, is_enabled: bool)
    requires
        spec_wf(m),
        id < m.owners.len(),
    ensures
        spec_wf(spec_show(m, id, is_enabled).0),
        spec_show(m, id, is_enabled).0.owners.len() == m.owners.len(),
        spec_show(m, id, is_enabled).0.active == m.active,
{
    let r = spec_show(m, id, is_enabled).0;
    assert forall|i: int| 0 <= i < r.owners.len() && (#[trigger] r.owners[i]).open_pending implies r.active
        == Some(i as usize) by {
        assert(r.owners[i].open_pending == m.owners[i].open_pending);
        assert(m.owners[i].open_pending);
        assert(m.active == Some(i as usize));
    }
    assert forall|i: int| 0 <= i < r.owners.len() && (#[trigger] r.owners[i]).closing implies r.owners[i].open by {
        assert(i != id || !is_enabled);
        assert(r.owners[i] == m.owners[i]);
    }
}

proof fn lemma_set_wf(m: ServiceModel, id: usize, o: ToolTipOwner)
    requires
        spec_wf(m),
        id < m.owners.len(),
        o.open_pending ==> m.active == Some(id),
        o.closing ==> o.open,
    ensures
        spec_wf(spec_set(m, id, o)),
{
    let r = spec_set(m, id, o);
    assert forall|i: int| 0 <= i < r.owners.len() && (#[trigger] r.owners[i]).open_pending implies r.active
        == Some(i as usize) by {
        if i != id {
            assert(r.owners[i] == m.owners[i]);
        }
    }
    assert forall|i: int| 0 <= i < r.owners.len() && (#[trigger] r.owners[i]).closing implies r.owners[i].open by {
        if i != id {
            assert(r.owners[i] == m.owners[i]);
        }
    }
}

proof fn lemma_begin_wf(m: ServiceModel, id: usize, automatic: bool, input: InputMode)
    requires
        spec_wf(m),
        id < m.owners.len(),
    ensures
        spec_wf(spec_begin(m, id, automatic, input).0),
        spec_begin(m, id, automatic, input).0.owners.len() == m.owners.len(),
{
    if !(!automatic || m.owners[id as int].suppressed || m.active == Some(id)) {
        let closed = match m.active {
            Some(p) => spec_close(m, p),
            None => (m, seq![]),
        };
        if let Some(p) = m.active {
            lemma_close_wf(m, p);
        }
        let m1 = closed.0;
        assert(spec_wf(m1));
        assert(m1.active is None);
        let r = spec_begin(m, id, automatic, input).0;
        assert forall|i: int|
            0 <= i < r.owners.len() && (#[trigger] r.owners[i]).open_pending implies r.active == Some(
            i as usize,
        ) by {
            if i != id {
                assert(r.owners[i] == m1.owners[i]);
            }
        }
        assert forall|i: int| 0 <= i < r.owners.len() && (#[trigger] r.owners[i]).closing implies r.owners[i].open by {
            if i != id {
                assert(r.owners[i] == m1.owners[i]);
            } else {
                assert(m1.owners[i].closing);
            }
        }
    }
}

fn next_epoch(e: u64) -> (r: u64)
    ensures
        r == spec_next_epoch(e),
{
    if e == u64::MAX {
        0
    } else {
        e + 1
    }
}

impl ToolTipService {
    /// A service with no owners.
    pub fn new() -> (r: ToolTipService)
        ensures
            r@.owners == Seq::<ToolTipOwner>::empty(),
            r@.active is None,
            r@.hovered == Seq::<usize>::empty(),
            !r@.recent_close,
            !r@.pointer_input,
            spec_wf(r@),
    {
        ToolTipService {
            owners: Vec::new(),
            active: None,
            hovered: HoverStack::new(),
            recent_close: false,
            pointer_input: false,
        }
    }

    /// Registers a new owner and returns its identity.
    pub fn add_owner(&mut self) -> (r: usize)
        requires
            spec_wf(old(self)@),
            old(self).owners.len() < usize::MAX,
        ensures
            r == old(self).owners.len(),
            final(self)@ == (ServiceModel { owners: old(self)@.owners.push(spec_new_owner()), ..old(self)@ }),
            spec_wf(final(self)@),
    {
        self.owners.push(
            ToolTipOwner {
                input: InputMode::Explicit,
                open: false,
                visible: false,
                suppressed: false,
                open_pending: false,
                closing: false,
                epoch: 0,
            },
        );
        proof {
            let m = self@;
            assert forall|i: int|
                0 <= i < m.owners.len() && (#[trigger] m.owners[i]).open_pending implies m.active
                == Some(i as usize) by {
                assert(i < old(self).owners.len());
                assert(m.owners[i] == old(self)@.owners[i]);
            }
            assert forall|i: int| 0 <= i < m.owners.len() && (#[trigger] m.owners[i]).closing implies m.owners[i].open by {
                assert(i < old(self).owners.len());
                assert(m.owners[i] == old(self)@.owners[i]);
            }
        }
        self.owners.len() - 1
    }

    fn set_owner(&mut self, id: usize, o: ToolTipOwner)
        requires
            id < old(self).owners.len(),
        ensures
            final(self)@ == spec_set(old(self)@, id, o),
    {
        self.owners.set(id, o);
    }

    fn close_into(&mut self, id: usize, cmds: &mut Vec<ToolTipCommand>)
        requires
            spec_wf(old(self)@),
            id < old(self).owners.len(),
        ensures
            final(self)@ == spec_close(old(self)@, id).0,
            final(cmds)@ == old(cmds)@ + spec_close(old(self)@, id).1,
            spec_wf(final(self)@),
    {
        proof {
            lemma_close_wf(old(self)@, id);
        }
        let o = self.owners[id];
        if o.open_pending {
            cmds.push(ToolTipCommand::CancelOpenTimer { owner: id });
        }
        let o1 = ToolTipOwner { open_pending: false, suppressed: true, ..o };
        let was_active = match self.active {
            Some(a) => a == id,
            None => false,
        };
        if was_active {
            self.active = None;
        }
        if !o.open || o.closing {
            self.owners.set(id, o1);
        } else {
            let epoch = next_epoch(o.epoch);
            self.owners.set(id, ToolTipOwner { visible: false, closing: true, epoch, ..o1 });
            self.recent_close = true;
            cmds.push(ToolTipCommand::RestartRecentTimer);
            cmds.push(ToolTipCommand::StartCloseTimer { owner: id, epoch });
        }
        proof {
            let c = spec_close(old(self)@, id).1;
            assert(cmds@ =~= old(cmds)@ + c);
            assert(self@.owners =~= spec_close(old(self)@, id).0.owners);
        }
    }

    fn show_into(&mut self, id: usize, is_enabled: bool, cmds: &mut Vec<ToolTipCommand>)
        requires
            spec_wf(old(self)@),
            id < old(self).owners.len(),
        ensures
            final(self)@ == spec_show(old(self)@, id, is_enabled).0,
            final(cmds)@ == old(cmds)@ + spec_show(old(self)@, id, is_enabled).1,
            spec_wf(final(self)@),
    {
        proof {
            lemma_show_wf(old(self)@, id, is_enabled);
        }
        if !is_enabled {
            assert(cmds@ =~= old(cmds)@ + seq![]);
            return;
        }
        let o = self.owners[id];
        if o.closing {
            cmds.push(ToolTipCommand::CancelCloseTimer { owner: id });
        }
        let epoch = next_epoch(o.epoch);
        if o.open {
            self.set_owner(id, ToolTipOwner { closing: false, visible: true, epoch, ..o });
        } else {
            self.set_owner(id, ToolTipOwner { closing: false, open: true, visible: false, epoch, ..o });
            cmds.push(ToolTipCommand::ShowOverlay { owner: id, epoch });
        }
        proof {
            assert(cmds@ =~= old(cmds)@ + spec_show(old(self)@, id, is_enabled).1);
        }
    }

    fn begin_into(&mut self, id: usize, automatic: bool, input: InputMode, cmds: &mut Vec<ToolTipCommand>)
        requires
            spec_wf(old(self)@),
            id < old(self).owners.len(),
        ensures
            final(self)@ == spec_begin(old(self)@, id, automatic, input).0,
            final(cmds)@ == old(cmds)@ + spec_begin(old(self)@, id, automatic, input).1,
            spec_wf(final(self)@),
    {
        proof {
            lemma_begin_wf(old(self)@, id, automatic, input);
        }
        let is_active = match self.active {
            Some(a) => a == id,
            None => false,
        };
        if !automatic || self.owners[id].suppressed || is_active {
            assert(cmds@ =~= old(cmds)@ + seq![]);
            return;
        }
        let ghost before = cmds@;
        match self.active {
            Some(p) => self.close_into(p, cmds),
            None => {
                assert(cmds@ =~= before + seq![]);
            },
        }
        let ghost closed_cmds = cmds@;
        let delay = show_delay_millis(input, self.recent_close);
        let o = self.owners[id];
        self.owners.set(id, ToolTipOwner { input, open_pending: true, ..o });
        self.active = Some(id);
        cmds.push(ToolTipCommand::StartOpenTimer { owner: id, delay_millis: delay });
        proof {
            assert(cmds@ =~= old(cmds)@ + spec_begin(old(self)@, id, automatic, input).1);
            assert(self@.owners =~= spec_begin(old(self)@, id, automatic, input).0.owners);
        }
    }

    fn unsuppress(&mut self, id: usize)
        requires
            spec_wf(old(self)@),
            id < old(self).owners.len(),
        ensures
            final(self)@ == spec_unsuppress(old(self)@, id),
            spec_wf(final(self)@),
    {
        let o = self.owners[id];
        proof {
            lemma_set_wf(old(self)@, id, ToolTipOwner { suppressed: false, ..o });
        }
        self.set_owner(id, ToolTipOwner { suppressed: false, ..o });
    }

    /// Closes an owner's tooltip.
    pub fn close(&mut self, id: usize) -> (r: Vec<ToolTipCommand>)
        requires
            spec_wf(old(self)@),
            id < old(self).owners.len(),
        ensures
            (final(self)@, r@) == spec_close(old(self)@, id),
            spec_wf(final(self)@),
    {
        let mut cmds: Vec<ToolTipCommand> = Vec::new();
        self.close_into(id, &mut cmds);
        assert(cmds@ =~= spec_close(old(self)@, id).1);
        cmds
    }

    /// Shows an owner's tooltip, as an explicit request on a new owner does after its first
    /// frame.
    pub fn show(&mut self, id: usize, is_enabled: bool) -> (r: Vec<ToolTipCommand>)
        requires
            spec_wf(old(self)@),
            id < old(self).owners.len(),
        ensures
            (final(self)@, r@) == spec_show(old(self)@, id, is_enabled),
            spec_wf(final(self)@),
    {
        let mut cmds: Vec<ToolTipCommand> = Vec::new();
        self.show_into(id, is_enabled, &mut cmds);
        assert(cmds@ =~= spec_show(old(self)@, id, is_enabled).1);
        cmds
    }

    /// Begins an owner with the given input.
    pub fn begin(&mut self, id: usize, automatic: bool, input: InputMode) -> (r: Vec<ToolTipCommand>)
        requires
            spec_wf(old(self)@),
            id < old(self).owners.len(),
        ensures
            (final(self)@, r@) == spec_begin(old(self)@, id, automatic, input),
            spec_wf(final(self)@),
    {
        let mut cmds: Vec<ToolTipCommand> = Vec::new();
        self.begin_into(id, automatic, input, &mut cmds);
        assert(cmds@ =~= spec_begin(old(self)@, id, automatic, input).1);
        cmds
    }

    /// The pointer enters an owner.
    pub fn enter(&mut self, id: usize, automatic: bool) -> (r: Vec<ToolTipCommand>)
        requires
            spec_wf(old(self)@),
            id < old(self).owners.len(),
        ensures
            (final(self)@, r@) == spec_enter(old(self)@, id, automatic),
            spec_wf(final(self)@),
    {
        self.unsuppress(id);
        self.hovered.enter(id);
        let mut cmds: Vec<ToolTipCommand> = Vec::new();
        self.begin_into(id, automatic, InputMode::Mouse, &mut cmds);
        assert(cmds@ =~= spec_enter(old(self)@, id, automatic).1);
        cmds
    }

    /// The pointer leaves an owner.
    pub fn leave(&mut self, id: usize) -> (r: Vec<ToolTipCommand>)
        requires
            spec_wf(old(self)@),
            id < old(self).owners.len(),
        ensures
            (final(self)@, r@) == spec_leave(old(self)@, id),
            spec_wf(final(self)@),
    {
        self.hovered.leave(id);
        self.unsuppress(id);
        let mut cmds: Vec<ToolTipCommand> = Vec::new();
        if !self.owners[id].open {
            self.close_into(id, &mut cmds);
            self.unsuppress(id);
        }
        assert(cmds@ =~= spec_leave(old(self)@, id).1);
        cmds
    }

    /// A touch press on an owner begins it with touch input.
    pub fn touch_down(&mut self, id: usize, automatic: bool) -> (r: Vec<ToolTipCommand>)
        requires
            spec_wf(old(self)@),
            id < old(self).owners.len(),
        ensures
            (final(self)@, r@) == spec_begin(spec_unsuppress(old(self)@, id), id, automatic, InputMode::Touch),
            spec_wf(final(self)@),
    {
        self.unsuppress(id);
        let mut cmds: Vec<ToolTipCommand> = Vec::new();
        self.begin_into(id, automatic, InputMode::Touch, &mut cmds);
        assert(cmds@ =~= spec_begin(spec_unsuppress(old(self)@, id), id, automatic, InputMode::Touch).1);
        cmds
    }

    /// A pointer event reaches an owner; `in_safe_zone` says whether the pointer lies in the
    /// zone between the owner and its shown tooltip.
    pub fn pointer_event(
        &mut self,
        id: usize,
        event: PointerEventKind,
        automatic: bool,
        in_safe_zone: bool,
    ) -> (r: Vec<ToolTipCommand>)
        requires
            spec_wf(old(self)@),
            id < old(self).owners.len(),
        ensures
            (final(self)@, r@) == spec_pointer_event(old(self)@, id, event, automatic, in_safe_zone),
            spec_wf(final(self)@),
    {
        if event == PointerEventKind::Down {
            self.pointer_input = true;
        }
        let ghost m1 = self@;
        let o = self.owners[id];
        let is_active = match self.active {
            Some(a) => a == id,
            None => false,
        };
        let top = self.hovered.is_top(id);
        let action = pointer_action(event, automatic, is_active, self.active.is_some(), top, o.input, o.open);
        let mut cmds: Vec<ToolTipCommand> = Vec::new();
        match action {
            ToolTipPointerAction::Close => self.close_into(id, &mut cmds),
            ToolTipPointerAction::CheckSafeZone => if !in_safe_zone {
                self.close_into(id, &mut cmds);
            },
            ToolTipPointerAction::BeginMouse => self.begin_into(id, automatic, InputMode::Mouse, &mut cmds),
            _ => {},
        }
        assert(cmds@ =~= spec_pointer_event(old(self)@, id, event, automatic, in_safe_zone).1);
        cmds
    }

    /// A key goes down while the owner is mounted.
    pub fn key_down(&mut self, id: usize, key: Key) -> (r: Vec<ToolTipCommand>)
        requires
            spec_wf(old(self)@),
            id < old(self).owners.len(),
        ensures
            (final(self)@, r@) == spec_key_down(old(self)@, id, key),
            spec_wf(final(self)@),
    {
        self.pointer_input = false;
        let is_active = match self.active {
            Some(a) => a == id,
            None => false,
        };
        let mut cmds: Vec<ToolTipCommand> = Vec::new();
        if is_active && (!self.owners[id].open || !special_key(key)) {
            self.close_into(id, &mut cmds);
        }
        assert(cmds@ =~= spec_key_down(old(self)@, id, key).1);
        cmds
    }

    /// Keyboard focus arrives at or leaves an owner.
    pub fn focus_changed(&mut self, id: usize, focused: bool, automatic: bool) -> (r: Vec<ToolTipCommand>)
        requires
            spec_wf(old(self)@),
            id < old(self).owners.len(),
        ensures
            (final(self)@, r@) == spec_focus_changed(old(self)@, id, focused, automatic),
            spec_wf(final(self)@),
    {
        let mut cmds: Vec<ToolTipCommand> = Vec::new();
        if focused && !self.pointer_input {
            self.unsuppress(id);
            self.begin_into(id, automatic, InputMode::Keyboard, &mut cmds);
        } else if !focused && self.owners[id].input == InputMode::Keyboard {
            self.close_into(id, &mut cmds);
        }
        assert(cmds@ =~= spec_focus_changed(old(self)@, id, focused, automatic).1);
        cmds
    }

    /// The owner's controlled open value or enabled state changed.
    pub fn controlled_change(&mut self, id: usize, is_enabled: bool, open_requested: bool) -> (r: Vec<
        ToolTipCommand,
    >)
        requires
            spec_wf(old(self)@),
            id < old(self).owners.len(),
        ensures
            (final(self)@, r@) == spec_controlled_change(old(self)@, id, is_enabled, open_requested),
            spec_wf(final(self)@),
    {
        let mut cmds: Vec<ToolTipCommand> = Vec::new();
        if is_enabled && open_requested {
            let o = self.owners[id];
            proof {
                lemma_set_wf(old(self)@, id, ToolTipOwner { input: InputMode::Explicit, ..o });
            }
            self.set_owner(id, ToolTipOwner { input: InputMode::Explicit, ..o });
            self.show_into(id, is_enabled, &mut cmds);
        } else {
            self.close_into(id, &mut cmds);
        }
        assert(cmds@ =~= spec_controlled_change(old(self)@, id, is_enabled, open_requested).1);
        cmds
    }

    /// The owner's opening delay ended.
    pub fn open_timer_fired(&mut self, id: usize, is_enabled: bool) -> (r: Vec<ToolTipCommand>)
        requires
            spec_wf(old(self)@),
            id < old(self).owners.len(),
        ensures
            (final(self)@, r@) == spec_open_timer_fired(old(self)@, id, is_enabled),
            spec_wf(final(self)@),
    {
        let o = self.owners[id];
        proof {
            lemma_set_wf(old(self)@, id, ToolTipOwner { open_pending: false, ..o });
        }
        self.set_owner(id, ToolTipOwner { open_pending: false, ..o });
        let mut cmds: Vec<ToolTipCommand> = Vec::new();
        self.show_into(id, is_enabled, &mut cmds);
        assert(cmds@ =~= spec_open_timer_fired(old(self)@, id, is_enabled).1);
        cmds
    }

    /// The frame after an overlay was shown for the change `epoch`.
    pub fn frame_shown(&mut self, id: usize, epoch: u64) -> (r: Vec<ToolTipCommand>)
        requires
            spec_wf(old(self)@),
            id < old(self).owners.len(),
        ensures
            (final(self)@, r@) == spec_frame_shown(old(self)@, id, epoch),
            spec_wf(final(self)@),
    {
        let o = self.owners[id];
        let mut cmds: Vec<ToolTipCommand> = Vec::new();
        if o.epoch == epoch {
            proof {
                lemma_set_wf(old(self)@, id, ToolTipOwner { visible: true, ..o });
            }
            self.set_owner(id, ToolTipOwner { visible: true, ..o });
            cmds.push(ToolTipCommand::RaiseOpened { owner: id });
        }
        assert(cmds@ =~= spec_frame_shown(old(self)@, id, epoch).1);
        cmds
    }

    /// The closing fade of the change `epoch` ended.
    pub fn fade_finished(&mut self, id: usize, epoch: u64) -> (r: Vec<ToolTipCommand>)
        requires
            spec_wf(old(self)@),
            id < old(self).owners.len(),
        ensures
            (final(self)@, r@) == spec_fade_finished(old(self)@, id, epoch),
            spec_wf(final(self)@),
    {
        let o = self.owners[id];
        let mut cmds: Vec<ToolTipCommand> = Vec::new();
        if o.epoch == epoch {
            proof {
                lemma_set_wf(old(self)@, id, ToolTipOwner { closing: false, open: false, ..o });
            }
            self.set_owner(id, ToolTipOwner { closing: false, open: false, ..o });
            cmds.push(ToolTipCommand::HideOverlay { owner: id });
            cmds.push(ToolTipCommand::RaiseClosed { owner: id });
        }
        assert(cmds@ =~= spec_fade_finished(old(self)@, id, epoch).1);
        cmds
    }

    /// The recent-close timer ended: the shorter delays no longer apply.
    pub fn recent_timer_fired(&mut self)
        requires
            spec_wf(old(self)@),
        ensures
            final(self)@ == (ServiceModel { recent_close: false, ..old(self)@ }),
            spec_wf(final(self)@),
    {
        self.recent_close = false;
    }

    /// The window around an owner was resized.
    pub fn resized(&mut self, id: usize) -> (r: Vec<ToolTipCommand>)
        requires
            spec_wf(old(self)@),
            id < old(self).owners.len(),
        ensures
            (final(self)@, r@) == spec_resized(old(self)@, id),
            spec_wf(final(self)@),
    {
        let mut cmds: Vec<ToolTipCommand> = Vec::new();
        if self.owners[id].input != InputMode::Explicit {
            self.close_into(id, &mut cmds);
        }
        assert(cmds@ =~= spec_resized(old(self)@, id).1);
        cmds
    }

    /// An owner leaves the tree; it receives no further events.
    pub fn dispose(&mut self, id: usize) -> (r: Vec<ToolTipCommand>)
        requires
            spec_wf(old(self)@),
            id < old(self).owners.len(),
        ensures
            (final(self)@, r@) == spec_dispose(old(self)@, id),
            spec_wf(final(self)@),
    {
        let o = self.owners[id];
        let mut cmds: Vec<ToolTipCommand> = Vec::new();
        if o.open_pending {
            cmds.push(ToolTipCommand::CancelOpenTimer { owner: id });
        }
        if o.closing {
            cmds.push(ToolTipCommand::CancelCloseTimer { owner: id });
        }
        self.owners.set(id, ToolTipOwner { open_pending: false, closing: false, ..o });
        self.hovered.leave(id);
        let was_active = match self.active {
            Some(a) => a == id,
            None => false,
        };
        if was_active {
            self.active = None;
        }
        proof {
            let m = self@;
            assert(m.owners =~= spec_dispose(old(self)@, id).0.owners);
            assert forall|i: int|
                0 <= i < m.owners.len() && (#[trigger] m.owners[i]).open_pending implies m.active
                == Some(i as usize) by {
                assert(i != id);
                assert(m.owners[i] == old(self)@.owners[i]);
            }
            assert forall|i: int| 0 <= i < m.owners.len() && (#[trigger] m.owners[i]).closing implies m.owners[i].open by {
                assert(i != id);
                assert(m.owners[i] == old(self)@.owners[i]);
            }
        }
        assert(cmds@ =~= spec_dispose(old(self)@, id).1);
        cmds
    }
}


/// Beginning another owner while a tooltip is shown closes the shown one first: it starts to
/// fade, the close counts as recent, and the new owner waits the shortened delay.
pub proof fn lemma_begin_replaces_shown_tooltip(m: ServiceModel, id: usize, p: usize, input: InputMode)
    requires
        spec_wf(m),
        id < m.owners.len(),
        p < m.owners.len(),
        p != id,
        m.active == Some(p),
        m.owners[p as int].open,
        !m.owners[p as int].closing,
        !m.owners[id as int].suppressed,
    ensures
        ({
            let (r, c) = spec_begin(m, id, true, input);
            &&& r.active == Some(id)
            &&& r.owners[p as int].closing && !r.owners[p as int].visible
            &&& r.owners[p as int].suppressed
            &&& r.recent_close
            &&& r.owners[id as int].open_pending
            &&& r.owners[id as int].input == input
            &&& c.last() == ToolTipCommand::StartOpenTimer {
                owner: id,
                delay_millis: spec_show_delay_millis(input, true),
            }
        }),
{
}

/// A fade end or a frame reported for an earlier change leaves the service unchanged.
pub proof fn lemma_stale_callbacks_are_ignored(m: ServiceModel, id: usize, epoch: u64)
    requires
        id < m.owners.len(),
        epoch != m.owners[id as int].epoch,
    ensures
        spec_fade_finished(m, id, epoch) == (m, Seq::<ToolTipCommand>::empty()),
        spec_frame_shown(m, id, epoch) == (m, Seq::<ToolTipCommand>::empty()),
{
    assert(spec_fade_finished(m, id, epoch).1 =~= Seq::<ToolTipCommand>::empty());
    assert(spec_frame_shown(m, id, epoch).1 =~= Seq::<ToolTipCommand>::empty());
}

/// Showing a tooltip again during its fade cancels the fade and shows it at once, and the end
/// of that fade is then ignored.
pub proof fn lemma_show_during_fade_cancels_it(m: ServiceModel, id: usize)
    requires
        spec_wf(m),
        id < m.owners.len(),
        m.owners[id as int].closing,
    ensures
        ({
            let (r, c) = spec_show(m, id, true);
            &&& r.owners[id as int].open && r.owners[id as int].visible && !r.owners[id as int].closing
            &&& c == seq![ToolTipCommand::CancelCloseTimer { owner: id }]
            &&& spec_fade_finished(r, id, m.owners[id as int].epoch).1.len() == 0
        }),
{
    let (r, c) = spec_show(m, id, true);
    assert(c =~= seq![ToolTipCommand::CancelCloseTimer { owner: id }]);
}

/// An idle owner's full cycle: beginning it starts its delay, the delay's end opens the
/// overlay, the next frame fades it in and raises Opened; closing it then fades it out and the
/// fade's end hides the overlay and raises Closed.
pub proof fn lemma_open_close_cycle(m: ServiceModel, id: usize, input: InputMode)
    requires
        spec_wf(m),
        id < m.owners.len(),
        m.active is None,
        !m.owners[id as int].open,
        !m.owners[id as int].suppressed,
    ensures
        ({
            let (b, bc) = spec_begin(m, id, true, input);
            let (t, tc) = spec_open_timer_fired(b, id, true);
            let e = t.owners[id as int].epoch;
            let (f, fc) = spec_frame_shown(t, id, e);
            let (c, cc) = spec_close(f, id);
            let e2 = c.owners[id as int].epoch;
            let (d, dc) = spec_fade_finished(c, id, e2);
            &&& bc == seq![ToolTipCommand::StartOpenTimer {
                owner: id,
                delay_millis: spec_show_delay_millis(input, m.recent_close),
            }]
            &&& tc == seq![ToolTipCommand::ShowOverlay { owner: id, epoch: e }]
            &&& fc == seq![ToolTipCommand::RaiseOpened { owner: id }]
            &&& f.owners[id as int].open && f.owners[id as int].visible && f.active == Some(id)
            &&& cc == seq![
                ToolTipCommand::RestartRecentTimer,
                ToolTipCommand::StartCloseTimer { owner: id, epoch: e2 },
            ]
            &&& c.active is None && c.recent_close
            &&& dc == seq![ToolTipCommand::HideOverlay { owner: id }, ToolTipCommand::RaiseClosed { owner: id }]
            &&& !d.owners[id as int].open && !d.owners[id as int].closing
        }),
{
    let (b, bc) = spec_begin(m, id, true, input);
    assert(!m.owners[id as int].closing);
    assert(bc =~= seq![ToolTipCommand::StartOpenTimer {
        owner: id,
        delay_millis: spec_show_delay_millis(input, m.recent_close),
    }]);
    let (t, tc) = spec_open_timer_fired(b, id, true);
    assert(tc =~= seq![ToolTipCommand::ShowOverlay { owner: id, epoch: t.owners[id as int].epoch }]);
    let (f, fc) = spec_frame_shown(t, id, t.owners[id as int].epoch);
    let (c, cc) = spec_close(f, id);
    assert(cc =~= seq![
        ToolTipCommand::RestartRecentTimer,
        ToolTipCommand::StartCloseTimer { owner: id, epoch: c.owners[id as int].epoch },
    ]);
}

} // verus!
