//! The planetarium panel as the workbench sees it.
use vstd::prelude::*;
use crate::workspace::{WorkspaceKind, all_kinds};
use crate::workspace::dock::{DockPosition, PanelId};
use crate::workspace::panel::PanelInfo;

verus! {

/// The dock the planetarium panel asks for.
pub fn planetarium_panel_position() -> (position: DockPosition)
    ensures
        position == DockPosition::Center,
{
    DockPosition::Center
}

/// Whether the planetarium panel is enabled in workspaces of `kind`: only in
/// the Explore workspace.
pub fn planetarium_panel_enabled(kind: WorkspaceKind) -> (enabled: bool)
    ensures
        enabled == (kind == WorkspaceKind::Explore),
{
    match kind {
        WorkspaceKind::Explore => true,
    }
}

/// What the workbench needs to know of the planetarium panel with entity id
/// `id`.
pub fn planetarium_panel_info(id: PanelId) -> (info: PanelInfo)
    ensures
        info.id == id,
        info.position == DockPosition::Center,
        forall|kind: WorkspaceKind| info.spec_enabled_in(kind) <==> kind == WorkspaceKind::Explore,
{
    let kinds = WorkspaceKind::all();
    let mut answers: Vec<bool> = Vec::new();
    let mut i: usize = 0;
    while i < kinds.len()
        invariant
            kinds@ == all_kinds(),
            i <= kinds.len(),
            answers@.len() == i,
            forall|j: int| 0 <= j < i ==> #[trigger] answers@[j] == (all_kinds()[j] == WorkspaceKind::Explore),
        decreases kinds.len() - i,
    {
        answers.push(planetarium_panel_enabled(kinds[i]));
        i += 1;
    }
    let info = PanelInfo::from_answers(id, planetarium_panel_position(), &answers);
    assert forall|kind: WorkspaceKind| info.spec_enabled_in(kind) <==> kind == WorkspaceKind::Explore by {
        if kind == WorkspaceKind::Explore {
            assert(answers@[0]);
        }
    }
    info
}

} // verus!
