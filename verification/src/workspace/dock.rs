use vstd::prelude::*;
use crate::theme::Rgb;

verus! {

/// Where a dock sits in a workspace.
#[derive(Clone, Copy, Debug, PartialEq, Eq, Hash, Structural)]
pub enum DockPosition {
    Left,
    Right,
    Bottom,
    Center,
}

/// The identity of a panel (the UI layer's entity id).
pub type PanelId = u64;

/// The initial size of a dock at `position`, in logical pixels.
pub open spec fn dock_size(position: DockPosition) -> u32 {
    match position {
        DockPosition::Left | DockPosition::Right => 100,
        DockPosition::Bottom | DockPosition::Center => 50,
    }
}

/// The index of the active panel that a dock holding `panels` shows: the first
/// panel, once there is one.
pub open spec fn expected_active_index(panels: Seq<PanelId>) -> Option<usize> {
    if panels.len() == 0 {
        None
    } else {
        Some(0usize)
    }
}

/// The panels a dock holds after `id` is offered to it: unchanged if it holds
/// `id` already, otherwise `id` appended.
pub open spec fn panels_after_add(panels: Seq<PanelId>, id: PanelId) -> Seq<PanelId> {
    if panels.contains(id) {
        panels
    } else {
        panels.push(id)
    }
}

/// How a dock is laid out: a column along the full height with a fixed
/// width, a column along the full width with a fixed height, or a column that
/// fills its area.
#[derive(Clone, Copy, Debug, PartialEq, Eq, Structural)]
pub enum DockLayout {
    FullHeight { width: u32 },
    FullWidth { height: u32 },
    Fill,
}

/// The layout of a dock of size `size` at `position`.
pub open spec fn layout_of(position: DockPosition, size: u32) -> DockLayout {
    match position {
        DockPosition::Left | DockPosition::Right => DockLayout::FullHeight { width: size },
        DockPosition::Bottom => DockLayout::FullWidth { height: size },
        DockPosition::Center => DockLayout::Fill,
    }
}

/// Offering a panel to a dock a second time changes nothing, and a dock holds
/// every panel offered to it.
pub proof fn lemma_add_panel_idempotent(panels: Seq<PanelId>, id: PanelId)
    ensures
        panels_after_add(panels_after_add(panels, id), id) == panels_after_add(panels, id),
        panels_after_add(panels, id).contains(id),
        forall|other: PanelId| panels.contains(other) ==> #[trigger] panels_after_add(panels, id).contains(other),
{
    if !panels.contains(id) {
        assert(panels.push(id)[panels.len() as int] == id);
        assert forall|other: PanelId| panels.contains(other) implies #[trigger] panels.push(id).contains(other) by {
            let k = choose|k: int| 0 <= k < panels.len() && panels[k] == other;
            assert(panels.push(id)[k] == other);
        }
    }
}

/// A dock: a titled area of a workspace that holds panels and shows one of
/// them.
pub struct Dock {
    title: String,
    fill: Option<Rgb>,
    position: DockPosition,
    size: u32,
    panels: Vec<PanelId>,
    active_index: Option<usize>,
}

/// Whether `id` occurs among `panels`.
fn contains_panel(panels: &Vec<PanelId>, id: PanelId) -> (found: bool)
    ensures
        found == panels@.contains(id),
{
    let mut i: usize = 0;
    while i < panels.len()
        invariant
            i <= panels.len(),
            forall|j: int| 0 <= j < i ==> panels@[j] != id,
        decreases panels.len() - i,
    {
        if panels[i] == id {
            assert(panels@[i as int] == id);
            return true;
        }
        i += 1;
    }
    false
}

impl Dock {
    pub closed spec fn spec_title(&self) -> Seq<char> {
        self.title@
    }

    /// The colour the dock's background is filled with (`None`: not filled).
    pub closed spec fn spec_fill(&self) -> Option<Rgb> {
        self.fill
    }

    pub closed spec fn spec_position(&self) -> DockPosition {
        self.position
    }

    pub closed spec fn spec_size(&self) -> u32 {
        self.size
    }

    pub closed spec fn spec_panels(&self) -> Seq<PanelId> {
        self.panels@
    }

    pub closed spec fn spec_active_index(&self) -> Option<usize> {
        self.active_index
    }

    /// The dock's invariant: no panel is held twice, and the active index is
    /// that of the first panel as soon as there is one.
    pub closed spec fn wf(&self) -> bool {
        &&& self.panels@.no_duplicates()
        &&& self.active_index == expected_active_index(self.panels@)
    }

    /// The panel that the dock shows, if any.
    pub open spec fn spec_active_panel(&self) -> Option<PanelId> {
        match self.spec_active_index() {
            Some(i) => if i < self.spec_panels().len() {
                Some(self.spec_panels()[i as int])
            } else {
                None
            },
            None => None,
        }
    }

    /// A new, empty dock filled with `fill`; its size is the default size for
    /// its position.
    pub fn new(title: String, fill: Option<Rgb>, position: DockPosition) -> (dock: Self)
        ensures
            dock.wf(),
            dock.spec_title() == title@,
            dock.spec_fill() == fill,
            dock.spec_position() == position,
            dock.spec_size() == dock_size(position),
            dock.spec_panels() == Seq::<PanelId>::empty(),
            dock.spec_active_index() == None::<usize>,
    {
        let size: u32 = match position {
            DockPosition::Left | DockPosition::Right => 100,
            DockPosition::Bottom => 50,
            DockPosition::Center => 50,
        };
        let dock = Dock { title, fill, position, size, panels: Vec::new(), active_index: None };
        assert(dock.panels@ =~= Seq::<PanelId>::empty());
        dock
    }

    /// Adds `panel` unless the dock already holds it; the first panel added
    /// becomes the active one.
    pub fn add_panel(&mut self, panel: PanelId)
        requires
            old(self).wf(),
        ensures
            final(self).wf(),
            final(self).spec_panels() == panels_after_add(old(self).spec_panels(), panel),
            final(self).spec_title() == old(self).spec_title(),
            final(self).spec_fill() == old(self).spec_fill(),
            final(self).spec_position() == old(self).spec_position(),
            final(self).spec_size() == old(self).spec_size(),
            old(self).spec_active_index() is Some ==> final(self).spec_active_index()
                == old(self).spec_active_index(),
            old(self).spec_active_index() is None && !old(self).spec_panels().contains(panel)
                ==> final(self).spec_active_index() == Some(0usize),
    {
        if !contains_panel(&self.panels, panel) {
            self.panels.push(panel);
            if self.active_index.is_none() {
                self.active_index = Some(0);
            }
            proof {
                let s = self.panels@;
                assert forall|i: int, j: int| 0 <= i < s.len() && 0 <= j < s.len() && i != j
                    implies s[i] != s[j] by {
                    if i == s.len() - 1 || j == s.len() - 1 {
                        assert(!old(self).panels@.contains(panel));
                        if i == s.len() - 1 {
                            assert(old(self).panels@[j] == s[j]);
                        } else {
                            assert(old(self).panels@[i] == s[i]);
                        }
                    } else {
                        assert(old(self).panels@[i] == s[i]);
                        assert(old(self).panels@[j] == s[j]);
                    }
                }
            }
        }
    }

    /// How the dock is laid out.
    pub fn layout(&self) -> (layout: DockLayout)
        ensures
            layout == layout_of(self.spec_position(), self.spec_size()),
    {
        match self.position {
            DockPosition::Left | DockPosition::Right => DockLayout::FullHeight { width: self.size },
            DockPosition::Bottom => DockLayout::FullWidth { height: self.size },
            DockPosition::Center => DockLayout::Fill,
        }
    }

    /// The panel that the dock shows: the one at the active index.
    pub fn active_panel(&self) -> (panel: Option<PanelId>)
        ensures
            panel == self.spec_active_panel(),
    {
        match self.active_index {
            Some(i) => if i < self.panels.len() {
                Some(self.panels[i])
            } else {
                None
            },
            None => None,
        }
    }

    pub fn title(&self) -> (title: &str)
        ensures
            title@ == self.spec_title(),
    {
        self.title.as_str()
    }

    pub fn fill(&self) -> (fill: Option<Rgb>)
        ensures
            fill == self.spec_fill(),
    {
        self.fill
    }

    pub fn position(&self) -> (position: DockPosition)
        ensures
            position == self.spec_position(),
    {
        self.position
    }

    pub fn size(&self) -> (size: u32)
        ensures
            size == self.spec_size(),
    {
        self.size
    }

    pub fn panels(&self) -> (panels: &[PanelId])
        ensures
            panels@ == self.spec_panels(),
    {
        self.panels.as_slice()
    }

    /// A well-formed dock holds each panel once and shows its first panel.
    pub proof fn lemma_wf_facts(&self)
        requires
            self.wf(),
        ensures
            self.spec_panels().no_duplicates(),
            self.spec_active_index() == expected_active_index(self.spec_panels()),
            self.spec_active_panel() == if self.spec_panels().len() == 0 {
                None
            } else {
                Some(self.spec_panels()[0])
            },
    {
    }
}

} // verus!
