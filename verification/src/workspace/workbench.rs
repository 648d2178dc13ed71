use vstd::prelude::*;
use crate::workspace::{
    Workspace, WorkspaceKind, all_kinds, dock_title, lemma_offer_keeps_placement, panel_offered,
    placed,
};
use crate::workspace::dock::{DockPosition, dock_size};
use crate::workspace::panel::PanelInfo;

verus! {

/// The top-level layout: one workspace per kind, the kind that is shown, and
/// every panel registered so far.
pub struct Workbench {
    workspaces: Vec<Workspace>,
    active_workspace_kind: WorkspaceKind,
    registered_panels: Vec<PanelInfo>,
}

impl Workbench {
    pub closed spec fn spec_workspaces(&self) -> Seq<Workspace> {
        self.workspaces@
    }

    pub closed spec fn spec_active_kind(&self) -> WorkspaceKind {
        self.active_workspace_kind
    }

    pub closed spec fn spec_registered_panels(&self) -> Seq<PanelInfo> {
        self.registered_panels@
    }

    /// There is exactly one workspace per kind, in the order of `all_kinds`,
    /// and each is well formed.
    pub open spec fn wf(&self) -> bool {
        &&& self.spec_workspaces().len() == all_kinds().len()
        &&& forall|i: int| 0 <= i < self.spec_workspaces().len() ==> {
            &&& (#[trigger] self.spec_workspaces()[i]).wf()
            &&& self.spec_workspaces()[i].spec_kind() == all_kinds()[i]
        }
    }

    /// Every registered panel sits, in every workspace whose kind it is
    /// enabled in, in the dock at its position.
    pub open spec fn places_registered_panels(&self) -> bool {
        forall|r: int, i: int|
            #![trigger self.spec_registered_panels()[r], self.spec_workspaces()[i]]
            0 <= r < self.spec_registered_panels().len() && 0 <= i < self.spec_workspaces().len()
                ==> placed(self.spec_workspaces()[i], self.spec_registered_panels()[r])
    }

    /// A workbench with a fresh workspace for every kind, showing the default
    /// kind and with no panels registered.
    pub fn new() -> (wb: Self)
        ensures
            wb.wf(),
            wb.spec_active_kind() == WorkspaceKind::Explore,
            wb.spec_registered_panels() == Seq::<PanelInfo>::empty(),
            wb.places_registered_panels(),
            forall|i: int, p: DockPosition| 0 <= i < wb.spec_workspaces().len() ==> {
                &&& (#[trigger] wb.spec_workspaces()[i].spec_dock(p)).spec_panels()
                    == Seq::<u64>::empty()
                &&& wb.spec_workspaces()[i].spec_dock(p).spec_active_index() == None::<usize>
                &&& wb.spec_workspaces()[i].spec_dock(p).spec_title() == dock_title(p)
                &&& wb.spec_workspaces()[i].spec_dock(p).spec_fill() == None::<crate::theme::Rgb>
                &&& wb.spec_workspaces()[i].spec_dock(p).spec_size() == dock_size(p)
            },
    {
        let kinds = WorkspaceKind::all();
        let mut workspaces: Vec<Workspace> = Vec::new();
        let mut i: usize = 0;
        while i < kinds.len()
            invariant
                kinds@ == all_kinds(),
                i <= kinds.len(),
                workspaces@.len() == i,
                forall|j: int| 0 <= j < i ==> {
                    &&& (#[trigger] workspaces@[j]).wf()
                    &&& workspaces@[j].spec_kind() == all_kinds()[j]
                    &&& forall|p: DockPosition| {
                        &&& (#[trigger] workspaces@[j].spec_dock(p)).spec_panels()
                            == Seq::<u64>::empty()
                        &&& workspaces@[j].spec_dock(p).spec_active_index() == None::<usize>
                        &&& workspaces@[j].spec_dock(p).spec_title() == dock_title(p)
                        &&& workspaces@[j].spec_dock(p).spec_fill() == None::<crate::theme::Rgb>
                        &&& workspaces@[j].spec_dock(p).spec_size() == dock_size(p)
                    }
                },
            decreases kinds.len() - i,
        {
            let ws = Workspace::new(kinds[i]);
            workspaces.push(ws);
            i += 1;
        }
        Workbench {
            workspaces,
            active_workspace_kind: WorkspaceKind::default(),
            registered_panels: Vec::new(),
        }
    }

    /// Shows the workspace of `kind`; returns whether the shown kind changed,
    /// that is, whether the view must be redrawn.
    pub fn switch_workspace(&mut self, kind: WorkspaceKind) -> (changed: bool)
        ensures
            changed == (old(self).spec_active_kind() != kind),
            final(self).spec_active_kind() == kind,
            final(self).spec_workspaces() == old(self).spec_workspaces(),
            final(self).spec_registered_panels() == old(self).spec_registered_panels(),
            old(self).places_registered_panels() ==> final(self).places_registered_panels(),
    {
        if self.active_workspace_kind != kind {
            self.active_workspace_kind = kind;
            true
        } else {
            false
        }
    }

    /// Registers `panel` and offers it to every workspace, each of which puts
    /// it in the dock it asks for if it is enabled there.
    pub fn add_panel(&mut self, panel: PanelInfo)
        requires
            old(self).wf(),
        ensures
            final(self).wf(),
            final(self).spec_active_kind() == old(self).spec_active_kind(),
            final(self).spec_registered_panels() == old(self).spec_registered_panels().push(panel),
            final(self).spec_workspaces().len() == old(self).spec_workspaces().len(),
            old(self).places_registered_panels() ==> final(self).places_registered_panels(),
            forall|i: int| 0 <= i < final(self).spec_workspaces().len() ==> panel_offered(
                #[trigger] old(self).spec_workspaces()[i],
                final(self).spec_workspaces()[i],
                panel,
            ),
    {
        let n = self.workspaces.len();
        let mut i: usize = 0;
        while i < n
            invariant
                n == self.workspaces@.len(),
                n == old(self).workspaces@.len(),
                i <= n,
                self.active_workspace_kind == old(self).active_workspace_kind,
                self.registered_panels@ == old(self).registered_panels@,
                forall|j: int| 0 <= j < n ==> {
                    &&& (#[trigger] self.workspaces@[j]).wf()
                    &&& self.workspaces@[j].spec_kind() == all_kinds()[j]
                },
                forall|j: int| 0 <= j < i ==> panel_offered(
                    #[trigger] old(self).workspaces@[j],
                    self.workspaces@[j],
                    panel,
                ),
                forall|j: int| i <= j < n ==> #[trigger] self.workspaces@[j]
                    == old(self).workspaces@[j],
            decreases n - i,
        {
            self.workspaces[i].add_panel_if_enabled(&panel);
            i += 1;
        }
        self.registered_panels.push(panel);
        proof {
            if old(self).places_registered_panels() {
                let regs = self.registered_panels@;
                let n_old = old(self).registered_panels@.len();
                assert forall|r: int, i: int|
                    #![trigger regs[r], self.workspaces@[i]]
                    0 <= r < regs.len() && 0 <= i < n implies placed(self.workspaces@[i], regs[r]) by {
                    let before = old(self).workspaces@[i];
                    if r < n_old {
                        assert(regs[r] == old(self).registered_panels@[r]);
                        assert(placed(before, old(self).spec_registered_panels()[r]));
                        lemma_offer_keeps_placement(before, self.workspaces@[i], panel, regs[r]);
                    } else {
                        assert(regs[r] == panel);
                        crate::workspace::lemma_offered_panel_placement(before, self.workspaces@[i], panel);
                    }
                }
            }
        }
    }

    /// The workspace of `kind`.
    pub fn workspace(&self, kind: WorkspaceKind) -> (ws: Option<&Workspace>)
        requires
            self.wf(),
        ensures
            match ws {
                Some(w) => exists|i: int| 0 <= i < self.spec_workspaces().len()
                    && all_kinds()[i] == kind && *w == #[trigger] self.spec_workspaces()[i],
                None => !all_kinds().contains(kind),
            },
    {
        let mut i: usize = 0;
        while i < self.workspaces.len()
            invariant
                self.wf(),
                i <= self.workspaces@.len(),
                forall|j: int| 0 <= j < i ==> all_kinds()[j] != kind,
            decreases self.workspaces@.len() - i,
        {
            if self.workspaces[i].kind() == kind {
                return Some(&self.workspaces[i]);
            }
            i += 1;
        }
        None
    }

    /// The workspace that is shown.
    pub fn active_workspace(&self) -> (ws: Option<&Workspace>)
        requires
            self.wf(),
        ensures
            match ws {
                Some(w) => w.spec_kind() == self.spec_active_kind() && w.wf(),
                None => !all_kinds().contains(self.spec_active_kind()),
            },
    {
        self.workspace(self.active_workspace_kind)
    }

    pub fn active_workspace_kind(&self) -> (kind: WorkspaceKind)
        ensures
            kind == self.spec_active_kind(),
    {
        self.active_workspace_kind
    }

    pub fn registered_panels(&self) -> (panels: &[PanelInfo])
        ensures
            panels@ == self.spec_registered_panels(),
    {
        self.registered_panels.as_slice()
    }
}

} // verus!
