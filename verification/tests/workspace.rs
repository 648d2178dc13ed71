use apogee::viewport::{planetarium_panel_enabled, planetarium_panel_info, planetarium_panel_position};
use apogee::workspace::dock::{Dock, DockLayout, DockPosition};
use apogee::workspace::panel::PanelInfo;
use apogee::workspace::workbench::Workbench;
use apogee::workspace::{Workspace, WorkspaceKind};

fn panel(id: u64, position: DockPosition, enabled: bool) -> PanelInfo {
    PanelInfo {
        id,
        position,
        enabled_in: if enabled { vec![WorkspaceKind::Explore] } else { vec![] },
    }
}

#[test]
fn workspace_kinds() {
    assert_eq!(WorkspaceKind::all(), &[WorkspaceKind::Explore]);
    assert_eq!(WorkspaceKind::default(), WorkspaceKind::Explore);
}

#[test]
fn dock_sizes_and_layouts() {
    let left = Dock::new("l".to_string(), None, DockPosition::Left);
    let right = Dock::new("r".to_string(), None, DockPosition::Right);
    let bottom = Dock::new("b".to_string(), None, DockPosition::Bottom);
    let center = Dock::new("c".to_string(), None, DockPosition::Center);
    assert_eq!(left.size(), 100);
    assert_eq!(right.size(), 100);
    assert_eq!(bottom.size(), 50);
    assert_eq!(center.size(), 50);
    assert_eq!(left.layout(), DockLayout::FullHeight { width: 100 });
    assert_eq!(right.layout(), DockLayout::FullHeight { width: 100 });
    assert_eq!(bottom.layout(), DockLayout::FullWidth { height: 50 });
    assert_eq!(center.layout(), DockLayout::Fill);
    assert_eq!(left.title(), "l");
    assert_eq!(left.position(), DockPosition::Left);
    assert!(left.panels().is_empty());
    assert_eq!(left.active_panel(), None);
}

#[test]
fn dock_ignores_duplicate_panels() {
    let mut dock = Dock::new("d".to_string(), None, DockPosition::Left);
    dock.add_panel(7);
    dock.add_panel(9);
    dock.add_panel(7);
    assert_eq!(dock.panels(), &[7, 9]);
}

#[test]
fn dock_shows_first_panel_added() {
    let mut dock = Dock::new("d".to_string(), None, DockPosition::Bottom);
    assert_eq!(dock.active_panel(), None);
    dock.add_panel(42);
    assert_eq!(dock.active_panel(), Some(42));
    dock.add_panel(43);
    assert_eq!(dock.active_panel(), Some(42));
}

#[test]
fn new_workspace_has_four_empty_docks() {
    let ws = Workspace::new(WorkspaceKind::Explore);
    assert_eq!(ws.kind(), WorkspaceKind::Explore);
    let expected = [
        (DockPosition::Left, "left_dock", 100),
        (DockPosition::Right, "right_dock", 100),
        (DockPosition::Bottom, "bottom_dock", 50),
        (DockPosition::Center, "center_dock", 50),
    ];
    for (position, title, size) in expected {
        let dock = ws.dock(position);
        assert_eq!(dock.position(), position);
        assert_eq!(dock.title(), title);
        assert_eq!(dock.size(), size);
        assert!(dock.panels().is_empty());
    }
}

#[test]
fn enabled_panel_goes_to_its_dock_only() {
    let mut ws = Workspace::new(WorkspaceKind::Explore);
    ws.add_panel_if_enabled(&panel(5, DockPosition::Right, true));
    assert_eq!(ws.dock(DockPosition::Right).panels(), &[5]);
    assert!(ws.dock(DockPosition::Left).panels().is_empty());
    assert!(ws.dock(DockPosition::Bottom).panels().is_empty());
    assert!(ws.dock(DockPosition::Center).panels().is_empty());
}

#[test]
fn disabled_panel_is_not_added() {
    let mut ws = Workspace::new(WorkspaceKind::Explore);
    ws.add_panel_if_enabled(&panel(5, DockPosition::Center, false));
    for p in [DockPosition::Left, DockPosition::Right, DockPosition::Bottom, DockPosition::Center] {
        assert!(ws.dock(p).panels().is_empty());
    }
}

#[test]
fn panel_enabled_check() {
    assert!(panel(1, DockPosition::Left, true).is_enabled_in_workspace(WorkspaceKind::Explore));
    assert!(!panel(1, DockPosition::Left, false).is_enabled_in_workspace(WorkspaceKind::Explore));
}

#[test]
fn workbench_switch_reports_changes() {
    let mut wb = Workbench::new();
    assert_eq!(wb.active_workspace_kind(), WorkspaceKind::Explore);
    assert!(!wb.switch_workspace(WorkspaceKind::Explore));
    assert_eq!(wb.active_workspace_kind(), WorkspaceKind::Explore);
}

#[test]
fn workbench_registers_and_routes_panels() {
    let mut wb = Workbench::new();
    assert!(wb.registered_panels().is_empty());
    wb.add_panel(panel(11, DockPosition::Center, true));
    wb.add_panel(panel(12, DockPosition::Left, false));
    wb.add_panel(panel(11, DockPosition::Center, true));
    assert_eq!(wb.registered_panels().len(), 3);
    assert_eq!(wb.registered_panels()[1].id, 12);
    let ws = wb.active_workspace().expect("every kind has a workspace");
    assert_eq!(ws.kind(), WorkspaceKind::Explore);
    assert_eq!(ws.dock(DockPosition::Center).panels(), &[11]);
    assert_eq!(ws.dock(DockPosition::Center).active_panel(), Some(11));
    assert!(ws.dock(DockPosition::Left).panels().is_empty());
    assert!(wb.workspace(WorkspaceKind::Explore).is_some());
}

#[test]
fn planetarium_panel_description() {
    assert_eq!(planetarium_panel_position(), DockPosition::Center);
    assert!(planetarium_panel_enabled(WorkspaceKind::Explore));
    let info = planetarium_panel_info(77);
    assert_eq!(info.id, 77);
    assert_eq!(info.position, DockPosition::Center);
    assert!(info.is_enabled_in_workspace(WorkspaceKind::Explore));
    let mut wb = Workbench::new();
    wb.add_panel(info);
    let ws = wb.workspace(WorkspaceKind::Explore).unwrap();
    assert_eq!(ws.dock(DockPosition::Center).active_panel(), Some(77));
}

#[test]
fn earlier_panels_stay_placed_when_more_are_added() {
    let mut wb = Workbench::new();
    wb.add_panel(panel(1, DockPosition::Left, true));
    wb.add_panel(panel(2, DockPosition::Left, true));
    wb.add_panel(panel(3, DockPosition::Bottom, true));
    wb.add_panel(panel(4, DockPosition::Right, false));
    let ws = wb.workspace(WorkspaceKind::Explore).unwrap();
    assert_eq!(ws.dock(DockPosition::Left).panels(), &[1, 2]);
    assert_eq!(ws.dock(DockPosition::Left).active_panel(), Some(1));
    assert_eq!(ws.dock(DockPosition::Bottom).panels(), &[3]);
    assert!(ws.dock(DockPosition::Right).panels().is_empty());
    assert_eq!(wb.registered_panels().len(), 4);
}

#[test]
fn panel_info_from_answers() {
    let yes = PanelInfo::from_answers(3, DockPosition::Bottom, &vec![true]);
    assert_eq!(yes.id, 3);
    assert_eq!(yes.position, DockPosition::Bottom);
    assert!(yes.is_enabled_in_workspace(WorkspaceKind::Explore));
    let no = PanelInfo::from_answers(3, DockPosition::Bottom, &vec![false]);
    assert!(!no.is_enabled_in_workspace(WorkspaceKind::Explore));
    let none = PanelInfo::from_answers(3, DockPosition::Bottom, &vec![]);
    assert!(!none.is_enabled_in_workspace(WorkspaceKind::Explore));
}

#[test]
fn new_workbench_docks_have_their_titles_and_sizes() {
    let wb = Workbench::new();
    let ws = wb.workspace(WorkspaceKind::Explore).unwrap();
    assert_eq!(ws.dock(DockPosition::Left).title(), "left_dock");
    assert_eq!(ws.dock(DockPosition::Center).title(), "center_dock");
    assert_eq!(ws.dock(DockPosition::Right).size(), 100);
    assert_eq!(ws.dock(DockPosition::Bottom).size(), 50);
}

#[test]
fn dock_keeps_its_fill() {
    let mut dock = Dock::new("f".to_string(), Some(0x123456), DockPosition::Right);
    assert_eq!(dock.fill(), Some(0x123456));
    dock.add_panel(1);
    assert_eq!(dock.fill(), Some(0x123456));
    let ws = Workspace::new(WorkspaceKind::Explore);
    for p in [DockPosition::Left, DockPosition::Right, DockPosition::Bottom, DockPosition::Center] {
        assert_eq!(ws.dock(p).fill(), None);
    }
}
