pub mod dock;
pub mod panel;
pub mod workbench;

use vstd::prelude::*;
use crate::workspace::dock::{Dock, DockPosition, dock_size, panels_after_add};
use crate::workspace::panel::PanelInfo;

verus! {

/// The kinds of workspace the workbench offers.
#[derive(Clone, Copy, Debug, PartialEq, Eq, Hash, Structural)]
pub enum WorkspaceKind {
    Explore,
}

/// Every workspace kind, in the order the workbench creates them.
pub open spec fn all_kinds() -> Seq<WorkspaceKind> {
    seq![WorkspaceKind::Explore]
}

impl WorkspaceKind {
    pub fn all() -> (kinds: &'static [WorkspaceKind])
        ensures
            kinds@ == all_kinds(),
    {
        let kinds: &'static [WorkspaceKind] = &[WorkspaceKind::Explore];
        assert(kinds@ =~= all_kinds());
        kinds
    }
}

impl Default for WorkspaceKind {
    fn default() -> (kind: Self)
        ensures
            kind == WorkspaceKind::Explore,
    {
        WorkspaceKind::Explore
    }
}

/// The title of the dock at `position` in a new workspace.
pub open spec fn dock_title(position: DockPosition) -> Seq<char> {
    match position {
        DockPosition::Left => "left_dock"@,
        DockPosition::Right => "right_dock"@,
        DockPosition::Bottom => "bottom_dock"@,
        DockPosition::Center => "center_dock"@,
    }
}

/// `after` is `before` once `panel` has been offered to it: the panel joins
/// the dock at its position if it is enabled in workspaces of this kind, and
/// nothing else changes.
pub open spec fn panel_offered(before: Workspace, after: Workspace, panel: PanelInfo) -> bool {
    &&& after.spec_kind() == before.spec_kind()
    &&& forall|p: DockPosition| {
        &&& (#[trigger] after.spec_dock(p)).spec_panels() == if p == panel.position
            && panel.spec_enabled_in(before.spec_kind()) {
            panels_after_add(before.spec_dock(p).spec_panels(), panel.id)
        } else {
            before.spec_dock(p).spec_panels()
        }
        &&& after.spec_dock(p).spec_title() == before.spec_dock(p).spec_title()
        &&& after.spec_dock(p).spec_fill() == before.spec_dock(p).spec_fill()
        &&& after.spec_dock(p).spec_size() == before.spec_dock(p).spec_size()
    }
}

/// Where an offered panel ends up: in the dock at its position when it is
/// enabled in the workspace's kind, and nowhere when it is not.
pub proof fn lemma_offered_panel_placement(before: Workspace, after: Workspace, panel: PanelInfo)
    requires
        panel_offered(before, after, panel),
    ensures
        panel.spec_enabled_in(before.spec_kind()) ==> after.spec_dock(panel.position).spec_panels().contains(panel.id),
        !panel.spec_enabled_in(before.spec_kind()) ==> forall|p: DockPosition|
            (#[trigger] after.spec_dock(p)).spec_panels() == before.spec_dock(p).spec_panels(),
        forall|p: DockPosition| p != panel.position ==> (#[trigger] after.spec_dock(p)).spec_panels()
            == before.spec_dock(p).spec_panels(),
{
    crate::workspace::dock::lemma_add_panel_idempotent(before.spec_dock(panel.position).spec_panels(), panel.id);
    assert(after.spec_dock(panel.position).spec_panels() == if panel.spec_enabled_in(before.spec_kind()) {
        panels_after_add(before.spec_dock(panel.position).spec_panels(), panel.id)
    } else {
        before.spec_dock(panel.position).spec_panels()
    });
}

/// Whether `panel` sits where it belongs in `ws`: in the dock at its
/// position, if it is enabled in workspaces of that kind.
pub open spec fn placed(ws: Workspace, panel: PanelInfo) -> bool {
    panel.spec_enabled_in(ws.spec_kind()) ==> ws.spec_dock(panel.position).spec_panels().contains(
        panel.id,
    )
}

/// Offering a panel to a workspace places it, and keeps in place every panel
/// that was placed already: docks never lose a panel.
pub proof fn lemma_offer_keeps_placement(
    before: Workspace,
    after: Workspace,
    panel: PanelInfo,
    other: PanelInfo,
)
    requires
        panel_offered(before, after, panel),
        placed(before, other),
    ensures
        placed(after, panel),
        placed(after, other),
{
    lemma_offered_panel_placement(before, after, panel);
    crate::workspace::dock::lemma_add_panel_idempotent(
        before.spec_dock(other.position).spec_panels(),
        panel.id,
    );
    assert(after.spec_dock(other.position).spec_panels() == if other.position == panel.position
        && panel.spec_enabled_in(before.spec_kind()) {
        panels_after_add(before.spec_dock(other.position).spec_panels(), panel.id)
    } else {
        before.spec_dock(other.position).spec_panels()
    });
}

/// A workspace: four docks, one at each position.
pub struct Workspace {
    kind: WorkspaceKind,
    left_dock: Dock,
    center_dock: Dock,
    right_dock: Dock,
    bottom_dock: Dock,
}

impl Workspace {
    pub closed spec fn spec_kind(&self) -> WorkspaceKind {
        self.kind
    }

    /// The dock at `position`.
    pub closed spec fn spec_dock(&self, position: DockPosition) -> Dock {
        match position {
            DockPosition::Left => self.left_dock,
            DockPosition::Bottom => self.bottom_dock,
            DockPosition::Center => self.center_dock,
            DockPosition::Right => self.right_dock,
        }
    }

    /// Every dock is well formed and sits at the position it is kept for.
    pub open spec fn wf(&self) -> bool {
        forall|p: DockPosition| #[trigger] self.spec_dock(p).wf()
            && self.spec_dock(p).spec_position() == p
    }

    /// A workspace of `kind` with an empty, unfilled dock at each position.
    pub fn new(kind: WorkspaceKind) -> (ws: Self)
        ensures
            ws.wf(),
            ws.spec_kind() == kind,
            forall|p: DockPosition| {
                &&& (#[trigger] ws.spec_dock(p)).spec_panels() == Seq::<u64>::empty()
                &&& ws.spec_dock(p).spec_active_index() == None::<usize>
                &&& ws.spec_dock(p).spec_title() == dock_title(p)
                &&& ws.spec_dock(p).spec_fill() == None::<crate::theme::Rgb>
                &&& ws.spec_dock(p).spec_size() == dock_size(p)
            },
    {
        let left_dock = Dock::new("left_dock".to_owned(), None, DockPosition::Left);
        let center_dock = Dock::new("center_dock".to_owned(), None, DockPosition::Center);
        let right_dock = Dock::new("right_dock".to_owned(), None, DockPosition::Right);
        let bottom_dock = Dock::new("bottom_dock".to_owned(), None, DockPosition::Bottom);
        Workspace { kind, left_dock, center_dock, right_dock, bottom_dock }
    }

    pub fn kind(&self) -> (kind: WorkspaceKind)
        ensures
            kind == self.spec_kind(),
    {
        self.kind
    }

    /// The dock at `position`.
    pub fn dock(&self, position: DockPosition) -> (dock: &Dock)
        ensures
            *dock == self.spec_dock(position),
    {
        match position {
            DockPosition::Left => &self.left_dock,
            DockPosition::Bottom => &self.bottom_dock,
            DockPosition::Center => &self.center_dock,
            DockPosition::Right => &self.right_dock,
        }
    }

    /// Routes `panel` to the dock at the position it asks for, if the panel is
    /// enabled in workspaces of this kind; otherwise nothing changes.
    pub fn add_panel_if_enabled(&mut self, panel: &PanelInfo)
        requires
            old(self).wf(),
        ensures
            final(self).wf(),
            panel_offered(*old(self), *final(self), *panel),
            !panel.spec_enabled_in(old(self).spec_kind()) ==> *final(self) == *old(self),
    {
        if !panel.is_enabled_in_workspace(self.kind) {
            return;
        }
        proof {
            assert(self.spec_dock(DockPosition::Left).wf());
            assert(self.spec_dock(DockPosition::Right).wf());
            assert(self.spec_dock(DockPosition::Bottom).wf());
            assert(self.spec_dock(DockPosition::Center).wf());
        }
        match panel.position {
            DockPosition::Left => self.left_dock.add_panel(panel.id),
            DockPosition::Bottom => self.bottom_dock.add_panel(panel.id),
            DockPosition::Center => self.center_dock.add_panel(panel.id),
            DockPosition::Right => self.right_dock.add_panel(panel.id),
        }
    }
}

} // verus!
