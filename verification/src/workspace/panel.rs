use vstd::prelude::*;
use crate::workspace::{WorkspaceKind, all_kinds};
use crate::workspace::dock::{DockPosition, PanelId};

verus! {

/// What the layout needs to know of a panel: its identity, the dock position
/// it asks for, and the workspace kinds it is enabled in.
pub struct PanelInfo {
    pub id: PanelId,
    pub position: DockPosition,
    pub enabled_in: Vec<WorkspaceKind>,
}

/// Whether `answers` says yes for `kind`: `answers[i]` answers for the kind
/// `all_kinds()[i]`, and a kind without an answer counts as a no.
pub open spec fn answered_yes(answers: Seq<bool>, kind: WorkspaceKind) -> bool {
    exists|i: int| 0 <= i < answers.len() && i < all_kinds().len() && all_kinds()[i] == kind && #[trigger] answers[i]
}

impl PanelInfo {
    /// The description of panel `id` at `position` from the panel's answers,
    /// in the order of `WorkspaceKind::all()`, to whether it is enabled in
    /// each kind of workspace.
    pub fn from_answers(id: PanelId, position: DockPosition, answers: &Vec<bool>) -> (info: PanelInfo)
        ensures
            info.id == id,
            info.position == position,
            forall|kind: WorkspaceKind| info.spec_enabled_in(kind) <==> answered_yes(answers@, kind),
    {
        let kinds = WorkspaceKind::all();
        let mut enabled_in: Vec<WorkspaceKind> = Vec::new();
        let mut i: usize = 0;
        while i < kinds.len() && i < answers.len()
            invariant
                kinds@ == all_kinds(),
                i <= kinds.len(),
                i <= answers.len(),
                forall|k: WorkspaceKind| enabled_in@.contains(k) <==> exists|j: int|
                    0 <= j < i && all_kinds()[j] == k && #[trigger] answers@[j],
            decreases kinds.len() - i,
        {
            let kind = kinds[i];
            let ghost before = enabled_in@;
            if answers[i] {
                enabled_in.push(kind);
            }
            proof {
                assert forall|k: WorkspaceKind| enabled_in@.contains(k) <==> exists|j: int|
                    0 <= j < i + 1 && all_kinds()[j] == k && #[trigger] answers@[j] by {
                    if enabled_in@.contains(k) {
                        let m = choose|m: int| 0 <= m < enabled_in@.len() && enabled_in@[m] == k;
                        if m < before.len() {
                            assert(before[m] == k);
                        } else {
                            assert(kinds@[i as int] == k && answers@[i as int]);
                        }
                    }
                    if exists|j: int| 0 <= j < i + 1 && all_kinds()[j] == k && #[trigger] answers@[j] {
                        let j = choose|j: int| 0 <= j < i + 1 && all_kinds()[j] == k && #[trigger] answers@[j];
                        if j < i {
                            let m = choose|m: int| 0 <= m < before.len() && before[m] == k;
                            assert(enabled_in@[m] == k);
                        } else {
                            assert(enabled_in@[enabled_in@.len() - 1] == k);
                        }
                    }
                }
            }
            i += 1;
        }
        let info = PanelInfo { id, position, enabled_in };
        assert forall|kind: WorkspaceKind| info.spec_enabled_in(kind) <==> answered_yes(answers@, kind) by {
            if answered_yes(answers@, kind) {
                let j = choose|j: int| 0 <= j < answers@.len() && j < all_kinds().len() && all_kinds()[j] == kind && #[trigger] answers@[j];
                assert(j < i);
            }
        }
        info
    }

    pub open spec fn spec_enabled_in(&self, kind: WorkspaceKind) -> bool {
        self.enabled_in@.contains(kind)
    }

    /// Whether the panel is enabled in workspaces of `kind`.
    pub fn is_enabled_in_workspace(&self, kind: WorkspaceKind) -> (enabled: bool)
        ensures
            enabled == self.spec_enabled_in(kind),
    {
        let mut i: usize = 0;
        while i < self.enabled_in.len()
            invariant
                i <= self.enabled_in.len(),
                forall|j: int| 0 <= j < i ==> self.enabled_in@[j] != kind,
            decreases self.enabled_in.len() - i,
        {
            if self.enabled_in[i] == kind {
                assert(self.enabled_in@[i as int] == kind);
                return true;
            }
            i += 1;
        }
        false
    }
}

} // verus!
